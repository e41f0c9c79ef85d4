//! Project-browser support: the directory-listing entry types and the
//! order the listing is shown in — directories first, then files, each
//! group ordered case-insensitively by name.

use vstd::prelude::*;
use vstd::string::StringExecFns;

use crate::strutil::{lemma_lex_le_total, lemma_lex_le_trans, lex_le, str_le};

verus! {

/// A project the editor has open: its root path and display name.
pub struct ProjectInfo {
    pub path: String,
    pub name: String,
}

/// One entry of a directory listing.
pub struct FileInfo {
    pub name: String,
    pub path: String,
    pub is_directory: bool,
}

/// Where a project keeps its game description: `game.json` under the
/// project root.
pub fn game_json_path(project_path: &str) -> (r: String)
    ensures
        r@ == project_path@ + "/game.json"@,
{
    let mut s = String::from_str(project_path);
    s.append("/game.json");
    s
}

/// The case-folded form of a string, as `str::to_lowercase` computes it.
pub uninterp spec fn lower_of(s: Seq<char>) -> Seq<char>;

/// Relies on `str::to_lowercase`: the lowercase form of a string is a
/// function of its characters alone.
#[verifier::external_body]
fn to_lowercase(s: &str) -> (r: String)
    ensures
        r@ == lower_of(s@),
{
    s.to_lowercase()
}

/// Listing order: directories before files; within each group,
/// lexicographic by case-folded name.
pub open spec fn listing_le(a: FileInfo, b: FileInfo) -> bool {
    if a.is_directory != b.is_directory {
        a.is_directory
    } else {
        lex_le(lower_of(a.name@), lower_of(b.name@))
    }
}

/// The order is total.
pub proof fn lemma_listing_le_total(a: FileInfo, b: FileInfo)
    ensures
        listing_le(a, b) || listing_le(b, a),
{
    if a.is_directory == b.is_directory {
        lemma_lex_le_total(lower_of(a.name@), lower_of(b.name@));
    }
}

/// The order is transitive.
pub proof fn lemma_listing_le_trans(a: FileInfo, b: FileInfo, c: FileInfo)
    requires
        listing_le(a, b),
        listing_le(b, c),
    ensures
        listing_le(a, c),
{
    if a.is_directory == b.is_directory && b.is_directory == c.is_directory {
        lemma_lex_le_trans(lower_of(a.name@), lower_of(b.name@), lower_of(c.name@));
    }
}

/// The first `k` entries are in listing order.
pub open spec fn sorted_upto(s: Seq<FileInfo>, k: int) -> bool {
    forall|p: int, q: int|
        0 <= p <= q < k && q < s.len() ==> listing_le(#[trigger] s[p], #[trigger] s[q])
}

/// The whole listing is in listing order.
pub open spec fn sorted_listing(s: Seq<FileInfo>) -> bool {
    sorted_upto(s, s.len() as int)
}

/// Whether `a` orders at or before `b`.
pub fn listing_le_exec(a: &FileInfo, b: &FileInfo) -> (r: bool)
    ensures
        r == listing_le(*a, *b),
{
    if a.is_directory != b.is_directory {
        a.is_directory
    } else {
        let la = to_lowercase(a.name.as_str());
        let lb = to_lowercase(b.name.as_str());
        str_le(la.as_str(), lb.as_str())
    }
}

/// Sorts a directory listing in place: directories first, then files,
/// each group case-insensitively by name. The result holds exactly the
/// entries it started with.
pub fn sort_listing(files: &mut Vec<FileInfo>)
    ensures
        final(files)@.to_multiset() == old(files)@.to_multiset(),
        sorted_listing(final(files)@),
{
    let ghost m0 = files@.to_multiset();
    let n = files.len();
    proof {
        if files@.len() > 0 {
            lemma_listing_le_total(files@[0], files@[0]);
        }
    }
    let mut i: usize = 1;
    while i < n
        invariant
            1 <= i,
            n == files@.len(),
            files@.to_multiset() == m0,
            sorted_upto(files@, i as int),
        decreases n - i,
    {
        let ghost s1 = files@;
        let mut j: usize = 0;
        while j < i && listing_le_exec(&files[j], &files[i])
            invariant
                j <= i < n,
                n == files@.len(),
                files@ == s1,
                forall|p: int| 0 <= p < j ==> listing_le(#[trigger] files@[p], files@[i as int]),
            decreases i - j,
        {
            j = j + 1;
        }
        let x = files.remove(i);
        files.insert(j, x);
        proof {
            // The two edits permute the entries.
            vstd::seq_lib::to_multiset_remove(s1, i as int);
            vstd::seq_lib::to_multiset_insert(s1.remove(i as int), j as int, x);
            s1.to_multiset_ensures();
            assert(s1[i as int] == x);
            assert(s1.contains(x));
            assert(m0.remove(x).insert(x) =~= m0);
            // The prefix is one entry longer and still ordered.
            let s2 = files@;
            assert forall|p: int, q: int|
                0 <= p <= q < i + 1 && q < s2.len() implies listing_le(s2[p], s2[q]) by {
                if j < i {
                    lemma_listing_le_total(s1[j as int], x);
                }
                if p == q {
                    lemma_listing_le_total(s2[p], s2[p]);
                } else {
                    // Identify each position with its entry before the edit.
                    if q == j {
                        // p < j: kept entries below the insertion point.
                        assert(s2[p] == s1[p]);
                    } else if q < j {
                        assert(s2[p] == s1[p] && s2[q] == s1[q]);
                    } else if p == j {
                        // x against an entry shifted up from position q - 1.
                        assert(s2[q] == s1[q - 1]);
                        if q - 1 > j {
                            lemma_listing_le_trans(x, s1[j as int], s1[q - 1]);
                        }
                    } else if p < j {
                        assert(s2[p] == s1[p] && s2[q] == s1[q - 1]);
                    } else {
                        assert(s2[p] == s1[p - 1] && s2[q] == s1[q - 1]);
                    }
                }
            }
        }
        i = i + 1;
    }
    proof {
        if n == 0 {
            assert(sorted_listing(files@));
        }
    }
}

} // verus!
