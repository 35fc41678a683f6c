use vstd::prelude::*;
use vstd::string::*;

use crate::error::GlamError;
use crate::manifest::{links_view, Link, LinkView, Package, PackageView};

verus! {

pub open spec fn strings_view(v: Seq<String>) -> Seq<Seq<char>> {
    v.map_values(|x: String| x@)
}

/// Reads `s[0..i]` line by line: the non-empty lines that a newline has
/// closed so far, and where the line still open begins.
pub open spec fn scan_lines(s: Seq<char>, i: int) -> (Seq<Seq<char>>, int)
    decreases i,
{
    if i <= 0 {
        (Seq::empty(), 0)
    } else {
        let (done, start) = scan_lines(s, i - 1);
        if s[i - 1] == '\n' {
            (if start < i - 1 { done.push(s.subrange(start, i - 1)) } else { done }, i)
        } else {
            (done, start)
        }
    }
}

/// The non-empty lines of a directory listing, in order.
pub open spec fn addon_folders(s: Seq<char>) -> Seq<Seq<char>> {
    let (done, start) = scan_lines(s, s.len() as int);
    if start < s.len() {
        done.push(s.subrange(start, s.len() as int))
    } else {
        done
    }
}

/// `addons/<folder>`, the place of an addon directory in a checkout and in
/// the host project alike.
pub open spec fn addon_path(folder: Seq<char>) -> Seq<char> {
    "addons/"@ + folder
}

pub open spec fn addon_link(folder: Seq<char>) -> LinkView {
    LinkView { source: addon_path(folder), target: addon_path(folder) }
}

pub open spec fn addon_links(folders: Seq<Seq<char>>) -> Seq<LinkView> {
    folders.map_values(|f: Seq<char>| addon_link(f))
}

/// The addon directories named by a listing of an `addons` area, one per
/// line; empty lines are skipped.
pub fn list_addons(listing: &str) -> (r: Vec<String>)
    ensures
        strings_view(r@) == addon_folders(listing@),
{
    let length = listing.unicode_len();
    let mut r: Vec<String> = Vec::new();
    let mut start: usize = 0;
    let mut i: usize = 0;
    while i < length
        invariant
            length == listing@.len(),
            start <= i <= length,
            scan_lines(listing@, i as int) == (strings_view(r@), start as int),
        decreases length - i,
    {
        if listing.get_char(i) == '\n' {
            if start < i {
                let line = String::from_str(listing.substring_char(start, i));
                r.push(line);
            }
            start = i + 1;
        }
        i = i + 1;
        assert(strings_view(r@) =~= scan_lines(listing@, i as int).0);
    }
    if start < length {
        let line = String::from_str(listing.substring_char(start, length));
        r.push(line);
    }
    assert(strings_view(r@) =~= addon_folders(listing@));
    r
}

pub fn make_addon_path(folder: &str) -> (r: String)
    ensures
        r@ == addon_path(folder@),
{
    String::from_str("addons/").concat(folder)
}

pub fn make_addon_link(folder: &str) -> (r: Link)
    ensures
        r@ == addon_link(folder@),
{
    Link { source_folder: make_addon_path(folder), target_folder: make_addon_path(folder) }
}

/// What the link resolver did for a package.
#[derive(Debug, PartialEq, Eq)]
pub enum Resolution {
    /// The package has its links.
    Linked,
    /// Several addon directories exist: one or more must be chosen.
    Choose,
}

/// Fills in the links of a package that has none from the addon directories
/// of its checkout. A single directory is linked at once; several ask for a
/// choice; none is an error. A package with links keeps them untouched.
pub fn resolve_links(package: &mut Package, folders: &Vec<String>) -> (r: Result<Resolution, GlamError>)
    ensures
        old(package)@.links.len() > 0 ==> r == Ok::<Resolution, GlamError>(Resolution::Linked)
            && final(package)@ == old(package)@,
        old(package)@.links.len() == 0 && folders@.len() == 0 ==> r is Err && r->Err_0 is NoAddonFound
            && final(package)@ == old(package)@,
        old(package)@.links.len() == 0 && folders@.len() == 1 ==> r == Ok::<Resolution, GlamError>(Resolution::Linked)
            && final(package)@ == (PackageView { links: seq![addon_link(folders@[0]@)], ..old(package)@ }),
        old(package)@.links.len() == 0 && folders@.len() > 1 ==> r == Ok::<Resolution, GlamError>(Resolution::Choose)
            && final(package)@ == old(package)@,
{
    if package.links.len() > 0 {
        return Ok(Resolution::Linked);
    }
    if folders.len() == 0 {
        return Err(GlamError::NoAddonFound);
    }
    if folders.len() == 1 {
        let link = make_addon_link(folders[0].as_str());
        package.links.push(link);
        assert(package@.links =~= seq![addon_link(folders@[0]@)]);
        return Ok(Resolution::Linked);
    }
    Ok(Resolution::Choose)
}

/// A choice among `candidates`: each chosen name is one of them, and none is
/// chosen twice.
pub open spec fn valid_choice(candidates: Seq<Seq<char>>, chosen: Seq<Seq<char>>) -> bool {
    &&& chosen.no_duplicates()
    &&& forall|k: int| 0 <= k < chosen.len() ==> candidates.contains(#[trigger] chosen[k])
}

pub fn copy_strings(v: &Vec<String>) -> (r: Vec<String>)
    ensures
        strings_view(r@) == strings_view(v@),
{
    let mut r: Vec<String> = Vec::new();
    let mut i: usize = 0;
    while i < v.len()
        invariant
            i <= v.len(),
            r@.len() == i,
            forall|k: int| 0 <= k < i ==> #[trigger] r@[k]@ == v@[k]@,
        decreases v.len() - i,
    {
        r.push(v[i].clone());
        i = i + 1;
    }
    assert(strings_view(r@) =~= strings_view(v@));
    r
}

/// Whether `s` is one of `v`.
pub fn contains_string(v: &Vec<String>, s: &String) -> (r: bool)
    ensures
        r == strings_view(v@).contains(s@),
{
    let mut i: usize = 0;
    while i < v.len()
        invariant
            i <= v.len(),
            forall|k: int| 0 <= k < i ==> #[trigger] v@[k]@ != s@,
        decreases v.len() - i,
    {
        if v[i] == *s {
            assert(strings_view(v@)[i as int] == s@);
            return true;
        }
        i = i + 1;
    }
    assert forall|k: int| 0 <= k < strings_view(v@).len() implies strings_view(v@)[k] != s@ by {
        assert(strings_view(v@)[k] == v@[k]@);
    }
    false
}

/// Whether `chosen` is a valid choice among `candidates`.
pub fn check_choice(candidates: &Vec<String>, chosen: &Vec<String>) -> (r: bool)
    ensures
        r == valid_choice(strings_view(candidates@), strings_view(chosen@)),
{
    let ghost cs = strings_view(chosen@);
    let mut i: usize = 0;
    while i < chosen.len()
        invariant
            i <= chosen.len(),
            cs == strings_view(chosen@),
            forall|a: int, b: int| 0 <= a < i && 0 <= b < i && a != b ==> cs[a] != cs[b],
            forall|k: int| 0 <= k < i ==> strings_view(candidates@).contains(#[trigger] cs[k]),
        decreases chosen.len() - i,
    {
        if !contains_string(candidates, &chosen[i]) {
            assert(!valid_choice(strings_view(candidates@), cs)) by {
                assert(cs[i as int] == chosen@[i as int]@);
            }
            return false;
        }
        let mut j: usize = 0;
        while j < i
            invariant
                j <= i < chosen.len(),
                cs == strings_view(chosen@),
                forall|b: int| 0 <= b < j ==> cs[b] != cs[i as int],
            decreases i - j,
        {
            if chosen[j] == chosen[i] {
                assert(!cs.no_duplicates()) by {
                    assert(cs[j as int] == cs[i as int]);
                }
                return false;
            }
            j = j + 1;
        }
        i = i + 1;
    }
    true
}

/// Gives a package without links one link for each addon directory chosen
/// among `candidates`. An empty choice is a cancel: `NoSelection`; a choice
/// of a name that was not offered, or of one name twice, is
/// `InvalidSelection`. On an error the package stays as it was.
pub fn select_links(package: &mut Package, candidates: &Vec<String>, chosen: &Vec<String>) -> (r: Result<
    (),
    GlamError,
>)
    ensures
        chosen@.len() == 0 ==> r is Err && r->Err_0 is NoSelection && final(package)@ == old(package)@,
        chosen@.len() > 0 && !valid_choice(strings_view(candidates@), strings_view(chosen@)) ==> r is Err
            && r->Err_0 is InvalidSelection && final(package)@ == old(package)@,
        chosen@.len() > 0 && valid_choice(strings_view(candidates@), strings_view(chosen@)) ==> r is Ok
            && final(package)@ == (PackageView {
            links: old(package)@.links + addon_links(strings_view(chosen@)),
            ..old(package)@
        }),
{
    if chosen.len() == 0 {
        return Err(GlamError::NoSelection);
    }
    if !check_choice(candidates, chosen) {
        return Err(GlamError::InvalidSelection);
    }
    let ghost before = package@;
    let mut i: usize = 0;
    while i < chosen.len()
        invariant
            i <= chosen.len(),
            package@ == (PackageView {
                links: before.links + addon_links(strings_view(chosen@.subrange(0, i as int))),
                ..before
            }),
        decreases chosen.len() - i,
    {
        let link = make_addon_link(chosen[i].as_str());
        let ghost prev = package.links@;
        let ghost done = strings_view(chosen@.subrange(0, i as int));
        package.links.push(link);
        assert(links_view(package.links@) =~= links_view(prev).push(addon_link(chosen@[i as int]@)));
        assert(strings_view(chosen@.subrange(0, i + 1)) =~= done.push(chosen@[i as int]@));
        assert(addon_links(done.push(chosen@[i as int]@)) =~= addon_links(done).push(addon_link(chosen@[i as int]@)));
        i = i + 1;
        assert(package@.links =~= before.links + addon_links(strings_view(chosen@.subrange(0, i as int))));
    }
    assert(chosen@.subrange(0, i as int) == chosen@);
    Ok(())
}

} // verus!
