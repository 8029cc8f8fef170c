//! Aggregation of per-repository records into chart inputs.
//!
//! A repository record carries star and fork counters and per-language byte
//! sizes. Aggregation sums the counters and merges the language entries into
//! categories: sizes of entries sharing a name add up (saturating at
//! `u64::MAX`), the first occurrence fixes the category's position and its
//! color, and an entry without a color falls back to the fixed neutral
//! `#cccccc`.

use vstd::prelude::*;
use vstd::string::StringExecFns;

use crate::donut::{cats_view, Category, CategoryV};

verus! {

/// One language entry of a repository: a name, a byte size, and an optional
/// color.
#[derive(Clone, Debug)]
pub struct LangEntry {
    pub name: String,
    pub size: u64,
    pub color: Option<String>,
}

/// Spec-level value of a `LangEntry`.
pub struct LangEntryV {
    pub name: Seq<char>,
    pub size: u64,
    pub color: Option<Seq<char>>,
}

impl View for LangEntry {
    type V = LangEntryV;

    open spec fn view(&self) -> LangEntryV {
        LangEntryV {
            name: self.name@,
            size: self.size,
            color: match &self.color {
                Some(c) => Some(c@),
                None => None,
            },
        }
    }
}

/// One repository: its counters and its language entries.
#[derive(Clone, Debug)]
pub struct RepoRecord {
    pub stars: u64,
    pub forks: u64,
    pub langs: Vec<LangEntry>,
}

/// Spec-level value of a `RepoRecord`.
pub struct RepoRecordV {
    pub stars: u64,
    pub forks: u64,
    pub langs: Seq<LangEntryV>,
}

impl View for RepoRecord {
    type V = RepoRecordV;

    open spec fn view(&self) -> RepoRecordV {
        RepoRecordV {
            stars: self.stars,
            forks: self.forks,
            langs: self.langs@.map_values(|e: LangEntry| e@),
        }
    }
}

/// The spec-level values of a sequence of repositories.
pub open spec fn repos_view(s: Seq<RepoRecord>) -> Seq<RepoRecordV> {
    s.map_values(|r: RepoRecord| r@)
}

/// Addition saturating at `u64::MAX`.
pub open spec fn sat_add(a: int, b: int) -> int {
    if a + b > u64::MAX {
        u64::MAX as int
    } else {
        a + b
    }
}

/// Computes `a + b`, saturating at `u64::MAX`.
pub fn sat_add_u64(a: u64, b: u64) -> (r: u64)
    ensures
        r == sat_add(a as int, b as int),
{
    if a > u64::MAX - b {
        u64::MAX
    } else {
        a + b
    }
}

/// The index of the first category named `name`, or -1.
pub open spec fn find_cat(cats: Seq<CategoryV>, name: Seq<char>) -> int
    decreases cats.len(),
{
    if cats.len() == 0 {
        -1
    } else if cats[0].name == name {
        0
    } else {
        let r = find_cat(cats.drop_first(), name);
        if r < 0 {
            -1
        } else {
            r + 1
        }
    }
}

proof fn lemma_find_cat_at(cats: Seq<CategoryV>, name: Seq<char>, j: int)
    requires
        0 <= j <= cats.len(),
        forall|k: int| 0 <= k < j ==> #[trigger] cats[k].name != name,
        j < cats.len() ==> cats[j].name == name,
    ensures
        j == cats.len() ==> find_cat(cats, name) == -1,
        j < cats.len() ==> find_cat(cats, name) == j,
    decreases cats.len(),
{
    if cats.len() == 0 {
    } else if j == 0 {
        if j < cats.len() {
        } else {
        }
    } else {
        assert(cats[0].name != name);
        let rest = cats.drop_first();
        assert(forall|k: int| 0 <= k < j - 1 ==> #[trigger] rest[k].name != name);
        lemma_find_cat_at(rest, name, j - 1);
    }
}

/// One language entry merged into the categories: the first category with
/// the same name absorbs the size (saturating); a new name appends a new
/// category, with the entry's color or the neutral fallback.
pub open spec fn add_edge(cats: Seq<CategoryV>, e: LangEntryV) -> Seq<CategoryV> {
    let j = find_cat(cats, e.name);
    if j >= 0 {
        cats.update(
            j,
            CategoryV {
                name: cats[j].name,
                magnitude: sat_add(cats[j].magnitude as int, e.size as int) as u64,
                color: cats[j].color,
            },
        )
    } else {
        cats.push(
            CategoryV {
                name: e.name,
                magnitude: e.size,
                color: match e.color {
                    Some(c) => c,
                    None => "#cccccc"@,
                },
            },
        )
    }
}

/// The first `i` entries of `edges` merged into `cats`, in order.
pub open spec fn merge_edges(cats: Seq<CategoryV>, edges: Seq<LangEntryV>, i: int) -> Seq<
    CategoryV,
>
    decreases i,
{
    if i <= 0 {
        cats
    } else {
        add_edge(merge_edges(cats, edges, i - 1), edges[i - 1])
    }
}

/// The language entries of the first `i` repositories merged into `cats`.
pub open spec fn merge_repos(cats: Seq<CategoryV>, repos: Seq<RepoRecordV>, i: int) -> Seq<
    CategoryV,
>
    decreases i,
{
    if i <= 0 {
        cats
    } else {
        merge_edges(
            merge_repos(cats, repos, i - 1),
            repos[i - 1].langs,
            repos[i - 1].langs.len() as int,
        )
    }
}

/// The categories of all repositories, merged in order.
pub open spec fn spec_language_stats(repos: Seq<RepoRecordV>) -> Seq<CategoryV> {
    merge_repos(Seq::empty(), repos, repos.len() as int)
}

/// The saturating sum of the star counters of the first `i` repositories.
pub open spec fn sum_stars(repos: Seq<RepoRecordV>, i: int) -> int
    decreases i,
{
    if i <= 0 {
        0
    } else {
        sat_add(sum_stars(repos, i - 1), repos[i - 1].stars as int)
    }
}

/// The saturating sum of the fork counters of the first `i` repositories.
pub open spec fn sum_forks(repos: Seq<RepoRecordV>, i: int) -> int
    decreases i,
{
    if i <= 0 {
        0
    } else {
        sat_add(sum_forks(repos, i - 1), repos[i - 1].forks as int)
    }
}

proof fn lemma_cats_view_push(s: Seq<Category>, x: Category)
    ensures
        cats_view(s.push(x)) == cats_view(s).push(x@),
{
    assert(cats_view(s.push(x)) =~= cats_view(s).push(x@));
}

/// Aggregates the repositories: total stars, total forks, and the merged
/// language categories (in first-appearance order).
pub fn aggregate_repos(repos: &Vec<RepoRecord>) -> (r: (u64, u64, Vec<Category>))
    ensures
        r.0 == sum_stars(repos_view(repos@), repos@.len() as int),
        r.1 == sum_forks(repos_view(repos@), repos@.len() as int),
        cats_view(r.2@) == spec_language_stats(repos_view(repos@)),
{
    let ghost rv = repos_view(repos@);
    let mut stars: u64 = 0;
    let mut forks: u64 = 0;
    let mut cats: Vec<Category> = Vec::new();
    proof {
        assert(cats_view(cats@) =~= merge_repos(Seq::empty(), rv, 0));
    }
    let mut ri: usize = 0;
    while ri < repos.len()
        invariant
            rv == repos_view(repos@),
            rv.len() == repos@.len(),
            0 <= ri <= repos.len(),
            stars == sum_stars(rv, ri as int),
            forks == sum_forks(rv, ri as int),
            cats_view(cats@) == merge_repos(Seq::empty(), rv, ri as int),
        decreases repos.len() - ri,
    {
        let repo = &repos[ri];
        proof {
            assert(repo@ == rv[ri as int]);
        }
        stars = sat_add_u64(stars, repo.stars);
        forks = sat_add_u64(forks, repo.forks);
        let ghost edges = rv[ri as int].langs;
        let mut ei: usize = 0;
        while ei < repo.langs.len()
            invariant
                rv == repos_view(repos@),
                rv.len() == repos@.len(),
                0 <= ri < repos.len(),
                repo == repos@[ri as int],
                edges == rv[ri as int].langs,
                edges.len() == repo.langs@.len(),
                0 <= ei <= repo.langs.len(),
                cats_view(cats@) == merge_edges(
                    merge_repos(Seq::empty(), rv, ri as int),
                    edges,
                    ei as int,
                ),
            decreases repo.langs.len() - ei,
        {
            let e = &repo.langs[ei];
            proof {
                assert(e@ == edges[ei as int]);
            }
            let ghost pre = cats_view(cats@);
            let mut j: usize = 0;
            let mut found = false;
            while j < cats.len() && !found
                invariant
                    0 <= j <= cats@.len(),
                    pre == cats_view(cats@),
                    pre.len() == cats@.len(),
                    !found ==> forall|k: int| 0 <= k < j ==> #[trigger] pre[k].name != e.name@,
                    found ==> j < cats@.len() && pre[j as int].name == e.name@ && (forall|k: int|
                        0 <= k < j ==> #[trigger] pre[k].name != e.name@),
                decreases cats@.len() - j + (if found { 0int } else { 1int }),
            {
                if cats[j].name.eq(&e.name) {
                    found = true;
                } else {
                    j = j + 1;
                }
            }
            if found {
                proof {
                    lemma_find_cat_at(pre, e.name@, j as int);
                }
                let old_cat = cats.remove(j);
                let merged = Category {
                    name: old_cat.name,
                    magnitude: sat_add_u64(old_cat.magnitude, e.size),
                    color: old_cat.color,
                };
                cats.insert(j, merged);
                proof {
                    assert(cats_view(cats@) =~= add_edge(pre, edges[ei as int]));
                }
            } else {
                proof {
                    lemma_find_cat_at(pre, e.name@, j as int);
                }
                let color = match &e.color {
                    Some(c) => c.clone(),
                    None => String::from_str("#cccccc"),
                };
                let ghost pre_cats = cats@;
                let fresh = Category { name: e.name.clone(), magnitude: e.size, color };
                cats.push(fresh);
                proof {
                    lemma_cats_view_push(pre_cats, fresh);
                    assert(cats_view(cats@) =~= add_edge(pre, edges[ei as int]));
                }
            }
            ei = ei + 1;
        }
        ri = ri + 1;
    }
    (stars, forks, cats)
}

} // verus!
