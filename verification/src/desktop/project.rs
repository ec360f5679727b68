//! Project bookkeeping of the desktop application: the list of recently
//! opened project files and the checks on a project's mesh settings.

use vstd::prelude::*;

use crate::desktop::parameters::MeshParameters;
use crate::desktop::paths::{path_key, same_path, PathKey};
use crate::text::{position_in, texts};

verus! {

/// Least and most nodes a project may ask for along each mesh axis.
pub const MIN_PROJECT_MESH_NODES: i32 = 10;
pub const MAX_PROJECT_MESH_NODES: i32 = 500;

/// The message for a project whose mesh node counts are out of range, or
/// `None` when both are within [10, 500]; the radial count is checked first.
pub open spec fn mesh_parameters_error(mesh: MeshParameters) -> Option<Seq<char>> {
    if mesh.nr < MIN_PROJECT_MESH_NODES || mesh.nr > MAX_PROJECT_MESH_NODES {
        Some("Radial nodes must be between 10 and 500"@)
    } else if mesh.nz < MIN_PROJECT_MESH_NODES || mesh.nz > MAX_PROJECT_MESH_NODES {
        Some("Axial nodes must be between 10 and 500"@)
    } else {
        None
    }
}

/// The mesh checks of a project's validation: both node counts within
/// [10, 500].
pub fn validate_mesh_parameters(mesh: &MeshParameters) -> (r: Result<(), String>)
    ensures
        r is Ok <==> mesh_parameters_error(*mesh) is None,
        r matches Err(message) ==> mesh_parameters_error(*mesh) == Some(message@),
{
    if mesh.nr < MIN_PROJECT_MESH_NODES || mesh.nr > MAX_PROJECT_MESH_NODES {
        return Err(String::from_str("Radial nodes must be between 10 and 500"));
    }
    if mesh.nz < MIN_PROJECT_MESH_NODES || mesh.nz > MAX_PROJECT_MESH_NODES {
        return Err(String::from_str("Axial nodes must be between 10 and 500"));
    }
    Ok(())
}

/// A project's mesh passes exactly when both node counts lie within
/// [10, 500]; a radial count outside that range is reported first, then an
/// axial one.
pub proof fn law_project_mesh_bounds(mesh: MeshParameters)
    ensures
        (mesh_parameters_error(mesh) is None) <==> (10 <= mesh.nr <= 500 && 10 <= mesh.nz <= 500),
        !(10 <= mesh.nr <= 500) ==> mesh_parameters_error(mesh) == Some(
            "Radial nodes must be between 10 and 500"@,
        ),
        10 <= mesh.nr <= 500 && !(10 <= mesh.nz <= 500) ==> mesh_parameters_error(mesh) == Some(
            "Axial nodes must be between 10 and 500"@,
        ),
{
}

/// Identifiers of the project templates, in the order they are listed.
pub open spec fn project_template_ids() -> Seq<Seq<char>> {
    seq!["small_furnace"@, "industrial_furnace"@, "high_power_research"@, "medical_waste"@]
}

/// Finds the project template named `template_id`: its position among
/// [`project_template_ids`], or the message for an unknown identifier.
pub fn find_project_template(template_id: &str) -> (r: Result<usize, String>)
    ensures
        r is Ok <==> project_template_ids().contains(template_id@),
        r matches Ok(k) ==> k < project_template_ids().len() && project_template_ids()[k as int]
            == template_id@,
        r matches Err(m) ==> m@ == "Template not found: "@ + template_id@,
{
    let mut ids: Vec<&'static str> = Vec::new();
    ids.push("small_furnace");
    ids.push("industrial_furnace");
    ids.push("high_power_research");
    ids.push("medical_waste");
    assert(texts(ids@) =~= project_template_ids());
    match position_in(&ids, template_id) {
        Some(k) => Ok(k),
        None => {
            let mut message = String::from_str("Template not found: ");
            message.append(template_id);
            Err(message)
        },
    }
}

/// Longest the recent-files list grows.
pub const MAX_RECENT_FILES: usize = 10;

/// An entry of the recent-files list.
#[derive(Debug)]
pub struct RecentFile {
    /// Path of the project file.
    pub path: String,
    /// Project name shown to the user.
    pub name: String,
    /// When the file was last opened, in milliseconds since the Unix epoch (UTC).
    pub last_opened: i64,
}

/// The entries of `s` whose path is not the path `key`, in their order in
/// `s`; paths are compared by their components.
pub open spec fn without_path(s: Seq<RecentFile>, key: PathKey) -> Seq<RecentFile>
    decreases s.len(),
{
    if s.len() == 0 {
        s
    } else {
        let rest = without_path(s.drop_last(), key);
        if path_key(s.last().path@) == key {
            rest
        } else {
            rest.push(s.last())
        }
    }
}

/// The recent-files list after opening `entry`: `entry` first, then the
/// earlier entries for other paths (compared by their components) in their previous order, cut to
/// [`MAX_RECENT_FILES`] entries.
pub open spec fn recent_after_open(s: Seq<RecentFile>, entry: RecentFile) -> Seq<RecentFile> {
    let all = seq![entry] + without_path(s, path_key(entry.path@));
    if all.len() > MAX_RECENT_FILES {
        all.take(MAX_RECENT_FILES as int)
    } else {
        all
    }
}

/// Whether no two entries of `s` name the same path.
pub open spec fn paths_distinct(s: Seq<RecentFile>) -> bool {
    forall|a: int, b: int|
        0 <= a < b < s.len() ==> #[trigger] path_key(s[a].path@) != #[trigger] path_key(s[b].path@)
}

/// Records that the project file of `entry` was opened: any earlier entry
/// for the same path (by [`same_path`], so `a/b` and `a//b/` match) is
/// dropped, `entry` goes first, and the list is cut to
/// [`MAX_RECENT_FILES`] entries.
pub fn add_recent_file(recent_files: &mut Vec<RecentFile>, entry: RecentFile)
    ensures
        final(recent_files)@ == recent_after_open(old(recent_files)@, entry),
{
    let ghost old_list = old(recent_files)@;
    let ghost path = path_key(entry.path@);
    let mut k: usize = 0;
    let ghost mut t: int = 0;
    while k < recent_files.len()
        invariant
            path == path_key(entry.path@),
            0 <= t <= old_list.len(),
            k == without_path(old_list.take(t), path).len(),
            recent_files@ == without_path(old_list.take(t), path) + old_list.skip(t),
        decreases old_list.len() - t,
    {
        let ghost prev = recent_files@;
        let ghost w = without_path(old_list.take(t), path);
        proof {
            lemma_without_path_push(old_list.take(t), old_list[t], path);
            assert(old_list.take(t + 1) =~= old_list.take(t).push(old_list[t]));
            assert(prev[k as int] == old_list[t]);
            assert(old_list.skip(t) =~= seq![old_list[t]] + old_list.skip(t + 1));
        }
        let same = same_path(recent_files[k].path.as_str(), entry.path.as_str());
        if same {
            let _dropped = recent_files.remove(k);
            proof {
                assert(without_path(old_list.take(t + 1), path) == w);
                assert(recent_files@ =~= w + old_list.skip(t + 1));
            }
        } else {
            k = k + 1;
            proof {
                assert(without_path(old_list.take(t + 1), path) == w.push(old_list[t]));
                assert(recent_files@ =~= w.push(old_list[t]) + old_list.skip(t + 1));
            }
        }
        proof {
            t = t + 1;
        }
    }
    proof {
        assert(old_list.take(t) =~= old_list);
        assert(recent_files@ =~= without_path(old_list, path));
    }
    recent_files.insert(0, entry);
    recent_files.truncate(MAX_RECENT_FILES);
    proof {
        assert(seq![entry] + without_path(old_list, path) =~= without_path(old_list, path).insert(
            0,
            entry,
        ));
    }
}

/// Unfolds [`without_path`] over one appended entry.
proof fn lemma_without_path_push(s: Seq<RecentFile>, x: RecentFile, key: PathKey)
    ensures
        without_path(s.push(x), key) == if path_key(x.path@) == key {
            without_path(s, key)
        } else {
            without_path(s, key).push(x)
        },
{
    assert(s.push(x).drop_last() =~= s);
}

/// Every entry kept by [`without_path`] comes from `s` and has another path.
proof fn lemma_without_path_members(s: Seq<RecentFile>, key: PathKey)
    ensures
        without_path(s, key).len() <= s.len(),
        forall|k: int|
            0 <= k < without_path(s, key).len() ==> path_key((#[trigger] without_path(s, key)[k]).path@)
                != key && s.contains(without_path(s, key)[k]),
    decreases s.len(),
{
    if s.len() > 0 {
        let rest = s.drop_last();
        lemma_without_path_members(rest, key);
        let w = without_path(s, key);
        assert forall|k: int| 0 <= k < w.len() implies path_key((#[trigger] w[k]).path@) != key
            && s.contains(w[k]) by {
            if k < without_path(rest, key).len() {
                assert(w[k] == without_path(rest, key)[k]);
                assert(rest.contains(w[k]));
                let m = choose|m: int| 0 <= m < rest.len() && rest[m] == w[k];
                assert(s[m] == w[k]);
            } else {
                assert(w[k] == s.last());
                assert(s[s.len() - 1] == w[k]);
            }
        }
    }
}

/// [`without_path`] leaves a list alone when no entry has the path.
proof fn lemma_without_path_keeps_all(s: Seq<RecentFile>, key: PathKey)
    requires
        forall|k: int| 0 <= k < s.len() ==> path_key((#[trigger] s[k]).path@) != key,
    ensures
        without_path(s, key) == s,
    decreases s.len(),
{
    if s.len() > 0 {
        lemma_without_path_keeps_all(s.drop_last(), key);
        assert(s.drop_last().push(s.last()) =~= s);
    }
}

/// [`without_path`] of a concatenation is the concatenation of the parts.
proof fn lemma_without_path_concat(a: Seq<RecentFile>, b: Seq<RecentFile>, key: PathKey)
    ensures
        without_path(a + b, key) == without_path(a, key) + without_path(b, key),
    decreases b.len(),
{
    if b.len() == 0 {
        assert(a + b =~= a);
        assert(without_path(a, key) + without_path(b, key) =~= without_path(a, key));
    } else {
        lemma_without_path_concat(a, b.drop_last(), key);
        assert((a + b).drop_last() =~= a + b.drop_last());
        assert((a + b).last() == b.last());
        if path_key(b.last().path@) == key {
        } else {
            assert(without_path(a, key) + without_path(b.drop_last(), key).push(b.last()) =~= (
            without_path(a, key) + without_path(b.drop_last(), key)).push(b.last()));
        }
    }
}

/// [`without_path`] keeps paths distinct when they were distinct.
proof fn lemma_without_path_distinct(s: Seq<RecentFile>, key: PathKey)
    requires
        paths_distinct(s),
    ensures
        paths_distinct(without_path(s, key)),
    decreases s.len(),
{
    if s.len() > 0 {
        let rest = s.drop_last();
        assert(paths_distinct(rest)) by {
            assert forall|a: int, b: int| 0 <= a < b < rest.len() implies #[trigger] path_key(rest[a].path@)
                != #[trigger] path_key(rest[b].path@) by {
                assert(rest[a] == s[a] && rest[b] == s[b]);
            }
        }
        lemma_without_path_distinct(rest, key);
        lemma_without_path_members(rest, key);
        let w = without_path(s, key);
        let wr = without_path(rest, key);
        if path_key(s.last().path@) != key {
            assert forall|a: int, b: int| 0 <= a < b < w.len() implies #[trigger] path_key(w[a].path@)
                != #[trigger] path_key(w[b].path@) by {
                if b < wr.len() {
                    assert(w[a] == wr[a] && w[b] == wr[b]);
                } else {
                    assert(w[a] == wr[a]);
                    assert(rest.contains(wr[a]));
                    let m = choose|m: int| 0 <= m < rest.len() && rest[m] == wr[a];
                    assert(s[m] == wr[a]);
                    assert(w[b] == s[s.len() - 1]);
                }
            }
        }
    }
}

/// After a project file is opened it heads the recent-files list, no other
/// entry names the same path, the list holds at most [`MAX_RECENT_FILES`] entries,
/// and every other entry was already in the list.
pub proof fn law_recent_open_heads_list(s: Seq<RecentFile>, entry: RecentFile)
    ensures
        recent_after_open(s, entry).len() >= 1,
        recent_after_open(s, entry)[0] == entry,
        recent_after_open(s, entry).len() <= MAX_RECENT_FILES,
        forall|k: int|
            1 <= k < recent_after_open(s, entry).len() ==> path_key((#[trigger] recent_after_open(
                s,
                entry,
            )[k]).path@) != path_key(entry.path@) && s.contains(recent_after_open(s, entry)[k]),
{
    lemma_without_path_members(s, path_key(entry.path@));
    let w = without_path(s, path_key(entry.path@));
    let r = recent_after_open(s, entry);
    assert forall|k: int| 1 <= k < r.len() implies path_key((#[trigger] r[k]).path@) != path_key(entry.path@)
        && s.contains(r[k]) by {
        assert(r[k] == w[k - 1]);
    }
}

/// Opening a file keeps ten entries at most and drops no other path: the
/// list becomes the opened entry followed by the earlier entries for other
/// paths, as many of them as fit in ten, in their previous order.
pub proof fn law_recent_open_keeps_others(s: Seq<RecentFile>, entry: RecentFile)
    ensures
        recent_after_open(s, entry).len() == if without_path(s, path_key(entry.path@)).len() + 1
            <= 10 {
            without_path(s, path_key(entry.path@)).len() + 1
        } else {
            10
        },
        forall|k: int|
            1 <= k < recent_after_open(s, entry).len() ==> #[trigger] recent_after_open(s, entry)[k]
                == without_path(s, path_key(entry.path@))[k - 1],
{
}

/// The list holds one entry per path: opening a file keeps the paths of the
/// recent-files list distinct.
pub proof fn law_recent_paths_stay_distinct(s: Seq<RecentFile>, entry: RecentFile)
    requires
        paths_distinct(s),
    ensures
        paths_distinct(recent_after_open(s, entry)),
{
    lemma_without_path_distinct(s, path_key(entry.path@));
    lemma_without_path_members(s, path_key(entry.path@));
    let w = without_path(s, path_key(entry.path@));
    let all = seq![entry] + w;
    let r = recent_after_open(s, entry);
    assert forall|a: int, b: int| 0 <= a < b < r.len() implies #[trigger] path_key(r[a].path@)
        != #[trigger] path_key(r[b].path@) by {
        assert(r[a] == all[a] && r[b] == all[b]);
        if a == 0 {
            assert(all[b] == w[b - 1]);
        } else {
            assert(all[a] == w[a - 1] && all[b] == w[b - 1]);
        }
    }
}

/// Opening the same file twice in a row leaves the list as opening it once.
pub proof fn law_recent_open_idempotent(s: Seq<RecentFile>, entry: RecentFile)
    ensures
        recent_after_open(recent_after_open(s, entry), entry) == recent_after_open(s, entry),
{
    let p = path_key(entry.path@);
    let w = without_path(s, p);
    let r = recent_after_open(s, entry);
    lemma_without_path_members(s, p);
    let tail = r.drop_first();
    assert(r =~= seq![entry] + tail);
    assert forall|k: int| 0 <= k < tail.len() implies path_key((#[trigger] tail[k]).path@) != p by {
        assert(tail[k] == w[k]);
    }
    lemma_without_path_concat(seq![entry], tail, p);
    assert(seq![entry].drop_last() =~= Seq::<RecentFile>::empty());
    assert(without_path(Seq::<RecentFile>::empty(), p) =~= Seq::<RecentFile>::empty());
    assert(without_path(seq![entry], p) =~= Seq::<RecentFile>::empty());
    lemma_without_path_keeps_all(tail, p);
    assert(without_path(r, p) =~= tail);
    assert(seq![entry] + without_path(r, p) =~= r);
}

} // verus!
