//! Sensor groups: which of them a list of chip names selects, and the highest
//! temperature among their inputs.

use crate::text::{
    ends_with, has_prefix, has_suffix, decimal_i32, parse_i32, starts_with, string_views, trim,
    trimmed,
};
use vstd::prelude::*;

verus! {

/// One sensor group as a scan of the hardware-monitoring tree found it.
#[derive(Clone, Debug, PartialEq, Eq)]
pub struct SensorGroup {
    /// The group's directory.
    pub path: String,
    /// The content of the group's name file as read, or `None` where it could
    /// not be read.
    pub name: Option<String>,
}

/// Whether a group declares the chip name `name`: its name file, trimmed, holds
/// exactly that. A group whose name file could not be read declares nothing.
pub open spec fn declares(group: SensorGroup, name: Seq<char>) -> bool {
    match group.name {
        Some(raw) => trimmed(raw@) == name,
        None => false,
    }
}

/// The paths of the groups that declare `name`, in scan order.
pub open spec fn matching_paths(groups: Seq<SensorGroup>, name: Seq<char>) -> Seq<Seq<char>>
    decreases groups.len(),
{
    if groups.len() == 0 {
        Seq::empty()
    } else {
        let rest = matching_paths(groups.drop_last(), name);
        if declares(groups.last(), name) {
            rest.push(groups.last().path@)
        } else {
            rest
        }
    }
}

/// Every path found for `names`, name by name, repeats included.
pub open spec fn discovered(groups: Seq<SensorGroup>, names: Seq<String>) -> Seq<Seq<char>>
    decreases names.len(),
{
    if names.len() == 0 {
        Seq::empty()
    } else {
        discovered(groups, names.drop_last()) + matching_paths(groups, names.last()@)
    }
}

/// `s` with every repeat of an earlier item removed.
pub open spec fn first_occurrences(s: Seq<Seq<char>>) -> Seq<Seq<char>>
    decreases s.len(),
{
    if s.len() == 0 {
        Seq::empty()
    } else {
        let rest = first_occurrences(s.drop_last());
        if rest.contains(s.last()) {
            rest
        } else {
            rest.push(s.last())
        }
    }
}

/// The paths of the groups whose declared chip name is `name`.
pub fn find_hwmons_by_name(groups: &Vec<SensorGroup>, name: &str) -> (out: Vec<String>)
    ensures
        string_views(out@) == matching_paths(groups@, name@),
{
    let wanted: String = name.to_owned();
    let mut out: Vec<String> = Vec::new();
    let mut i: usize = 0;
    assert(string_views(out@) =~= matching_paths(groups@.take(0), name@));
    while i < groups.len()
        invariant
            i <= groups.len(),
            wanted@ == name@,
            string_views(out@) == matching_paths(groups@.take(i as int), name@),
        decreases groups.len() - i,
    {
        let group = &groups[i];
        let ghost before = out@;
        if let Some(raw) = &group.name {
            let actual: String = trim(raw.as_str()).to_owned();
            if actual == wanted {
                out.push(group.path.clone());
                assert(string_views(out@) =~= string_views(before).push(group.path@));
            }
        }
        proof {
            assert(groups@.take(i + 1).drop_last() =~= groups@.take(i as int));
        }
        i += 1;
    }
    assert(groups@.take(groups.len() as int) =~= groups@);
    out
}

/// Whether `path` is among `paths`.
fn contains_path(paths: &Vec<String>, path: &String) -> (found: bool)
    ensures
        found == string_views(paths@).contains(path@),
{
    let mut i: usize = 0;
    while i < paths.len()
        invariant
            i <= paths.len(),
            forall|j: int| 0 <= j < i ==> string_views(paths@)[j] != path@,
        decreases paths.len() - i,
    {
        if paths[i] == *path {
            assert(string_views(paths@)[i as int] == path@);
            return true;
        }
        i += 1;
    }
    false
}

/// The paths of the groups that declare any of `names`: in order of first
/// discovery, none twice.
pub fn resolve_hwmons(names: &[String], groups: &Vec<SensorGroup>) -> (out: Vec<String>)
    ensures
        string_views(out@) == first_occurrences(discovered(groups@, names@)),
        string_views(out@).no_duplicates(),
        forall|p: Seq<char>|
            string_views(out@).contains(p) <==> discovered(groups@, names@).contains(p),
{
    let mut out: Vec<String> = Vec::new();
    let mut i: usize = 0;
    assert(names@.take(0) =~= Seq::empty());
    assert(string_views(out@) =~= Seq::empty());
    while i < names.len()
        invariant
            i <= names.len(),
            string_views(out@) == first_occurrences(discovered(groups@, names@.take(i as int))),
        decreases names.len() - i,
    {
        let found = find_hwmons_by_name(groups, names[i].as_str());
        let ghost base = discovered(groups@, names@.take(i as int));
        let mut k: usize = 0;
        assert(base + string_views(found@).take(0) =~= base);
        while k < found.len()
            invariant
                k <= found.len(),
                string_views(out@) == first_occurrences(base + string_views(found@).take(k as int)),
            decreases found.len() - k,
        {
            let ghost before = out@;
            let ghost seen = base + string_views(found@).take(k as int);
            let ghost next = base + string_views(found@).take(k + 1);
            assert(next.drop_last() =~= seen);
            assert(next.last() == found@[k as int]@);
            if !contains_path(&out, &found[k]) {
                out.push(found[k].clone());
                assert(string_views(out@) =~= string_views(before).push(found@[k as int]@));
            }
            k += 1;
        }
        proof {
            assert(string_views(found@).take(found.len() as int) =~= string_views(found@));
            assert(names@.take(i + 1).drop_last() =~= names@.take(i as int));
            assert(names@.take(i + 1).last() == names@[i as int]);
        }
        i += 1;
    }
    proof {
        assert(names@.take(names.len() as int) =~= names@);
        lemma_first_occurrences_distinct(discovered(groups@, names@));
    }
    out
}

/// Removing repeats leaves no item twice and loses none.
pub proof fn lemma_first_occurrences_distinct(s: Seq<Seq<char>>)
    ensures
        first_occurrences(s).no_duplicates(),
        forall|p: Seq<char>| first_occurrences(s).contains(p) <==> s.contains(p),
    decreases s.len(),
{
    if s.len() > 0 {
        lemma_first_occurrences_distinct(s.drop_last());
        let rest = first_occurrences(s.drop_last());
        assert forall|p: Seq<char>| first_occurrences(s).contains(p) <==> s.contains(p) by {
            if s.contains(p) {
                let i = choose|i: int| 0 <= i < s.len() && s[i] == p;
                if i < s.len() - 1 {
                    assert(s.drop_last()[i] == p);
                    assert(s.drop_last().contains(p));
                }
                if !rest.contains(s.last()) {
                    assert(rest.push(s.last())[rest.len() as int] == s.last());
                    if rest.contains(p) {
                        let j = choose|j: int| 0 <= j < rest.len() && rest[j] == p;
                        assert(rest.push(s.last())[j] == p);
                    }
                }
            }
            if first_occurrences(s).contains(p) {
                let j = choose|j: int| 0 <= j < first_occurrences(s).len() && first_occurrences(
                    s,
                )[j] == p;
                if j < rest.len() {
                    assert(rest[j] == p);
                    assert(rest.contains(p));
                    assert(s.drop_last().contains(p));
                    let i = choose|i: int| 0 <= i < s.drop_last().len() && s.drop_last()[i] == p;
                    assert(s[i] == p);
                } else {
                    assert(p == s.last());
                    assert(s[s.len() - 1] == p);
                }
            }
        }
    }
}

/// One entry of a sensor group's directory.
#[derive(Clone, Debug, PartialEq, Eq)]
pub struct TempFile {
    /// The entry's file name.
    pub name: String,
    /// The text read from it, or `None` where it could not be read.
    pub content: Option<String>,
}

/// What listing one sensor group's directory gave.
#[derive(Clone, Debug, PartialEq, Eq)]
pub enum GroupScan {
    /// The directory could not be listed in full.
    Unreadable,
    /// The directory's entries.
    Listed(Vec<TempFile>),
}

/// Why no temperature could be had from a sensor set.
#[derive(Clone, Copy, Debug, PartialEq, Eq, Structural)]
pub enum TempError {
    /// A group's directory could not be listed.
    ScanFailed,
    /// No entry of any group gave a valid reading.
    NoInputs,
}

/// Whether a file name is that of a temperature input: `temp...._input`.
pub open spec fn is_temp_input_name(name: Seq<char>) -> bool {
    has_prefix(name, "temp"@) && has_suffix(name, "_input"@)
}

/// The millidegrees that a file's text denotes, if it is a decimal integer
/// between white space.
pub open spec fn reading_of(raw: Seq<char>) -> Option<i32> {
    decimal_i32(trimmed(raw))
}

/// The reading that a directory entry contributes, if any.
pub open spec fn file_reading(file: TempFile) -> Option<i32> {
    if is_temp_input_name(file.name@) {
        match file.content {
            Some(text) => reading_of(text@),
            None => None,
        }
    } else {
        None
    }
}

/// The valid readings among `files`, in order.
pub open spec fn group_readings(files: Seq<TempFile>) -> Seq<i32>
    decreases files.len(),
{
    if files.len() == 0 {
        Seq::empty()
    } else {
        let rest = group_readings(files.drop_last());
        match file_reading(files.last()) {
            Some(v) => rest.push(v),
            None => rest,
        }
    }
}

/// The entries of a scan; none for a group that could not be listed.
pub open spec fn scan_files(scan: GroupScan) -> Seq<TempFile> {
    match scan {
        GroupScan::Unreadable => Seq::empty(),
        GroupScan::Listed(files) => files@,
    }
}

/// The valid readings of all groups, in order.
pub open spec fn all_readings(scans: Seq<GroupScan>) -> Seq<i32>
    decreases scans.len(),
{
    if scans.len() == 0 {
        Seq::empty()
    } else {
        all_readings(scans.drop_last()) + group_readings(scan_files(scans.last()))
    }
}

/// Whether some group of `scans` could not be listed.
pub open spec fn any_unreadable(scans: Seq<GroupScan>) -> bool {
    exists|i: int| 0 <= i < scans.len() && scans[i] is Unreadable
}

/// Whether `m` occurs in `s` and nothing in `s` exceeds it.
pub open spec fn is_max_of(m: i32, s: Seq<i32>) -> bool {
    s.contains(m) && forall|i: int| 0 <= i < s.len() ==> s[i] <= m
}

/// Whether `name` names a temperature input file.
pub fn is_temp_input(name: &str) -> (yes: bool)
    ensures
        yes == is_temp_input_name(name@),
{
    starts_with(name, "temp") && ends_with(name, "_input")
}

/// Reads a temperature in millidegrees Celsius from the text of an input
/// file; `None` where the text, trimmed, is no decimal `i32`.
pub fn read_temp_millic(raw: &str) -> (reading: Option<i32>)
    ensures
        reading == reading_of(raw@),
{
    parse_i32(trim(raw))
}

/// The greatest of `temps`, or `None` where there is none.
pub fn max_reading(temps: &Vec<i32>) -> (max: Option<i32>)
    ensures
        match max {
            Some(m) => is_max_of(m, temps@),
            None => temps@.len() == 0,
        },
{
    if temps.len() == 0 {
        return None;
    }
    let mut best: i32 = temps[0];
    let mut i: usize = 1;
    while i < temps.len()
        invariant
            1 <= i <= temps.len(),
            exists|j: int| 0 <= j < i && temps@[j] == best,
            forall|j: int| 0 <= j < i ==> temps@[j] <= best,
        decreases temps.len() - i,
    {
        if temps[i] > best {
            best = temps[i];
        }
        i += 1;
    }
    Some(best)
}

/// The highest valid reading over the temperature inputs of all groups.
///
/// Entries that are no temperature input, that could not be read or that hold
/// no integer are passed over. A group that could not be listed fails the
/// whole call; so does a set without a single valid reading.
pub fn max_temp_in_hwmons(scans: &Vec<GroupScan>) -> (max: Result<i32, TempError>)
    ensures
        match max {
            Ok(m) => !any_unreadable(scans@) && is_max_of(m, all_readings(scans@)),
            Err(TempError::ScanFailed) => any_unreadable(scans@),
            Err(TempError::NoInputs) => !any_unreadable(scans@) && all_readings(scans@).len()
                == 0,
        },
{
    let mut temps: Vec<i32> = Vec::new();
    let mut g: usize = 0;
    assert(scans@.take(0) =~= Seq::empty());
    while g < scans.len()
        invariant
            g <= scans.len(),
            temps@ == all_readings(scans@.take(g as int)),
            forall|j: int| 0 <= j < g ==> !(scans@[j] is Unreadable),
        decreases scans.len() - g,
    {
        match &scans[g] {
            GroupScan::Unreadable => {
                return Err(TempError::ScanFailed);
            },
            GroupScan::Listed(files) => {
                let ghost before = temps@;
                let mut k: usize = 0;
                assert(files@.take(0) =~= Seq::empty());
                while k < files.len()
                    invariant
                        k <= files.len(),
                        temps@ == before + group_readings(files@.take(k as int)),
                    decreases files.len() - k,
                {
                    let file = &files[k];
                    proof {
                        assert(files@.take(k + 1).drop_last() =~= files@.take(k as int));
                    }
                    if is_temp_input(file.name.as_str()) {
                        if let Some(text) = &file.content {
                            if let Some(v) = read_temp_millic(text.as_str()) {
                                temps.push(v);
                            }
                        }
                    }
                    assert(temps@ =~= before + group_readings(files@.take(k + 1)));
                    k += 1;
                }
                assert(files@.take(files.len() as int) =~= files@);
            },
        }
        proof {
            assert(scans@.take(g + 1).drop_last() =~= scans@.take(g as int));
        }
        g += 1;
    }
    assert(scans@.take(scans.len() as int) =~= scans@);
    match max_reading(&temps) {
        Some(m) => Ok(m),
        None => Err(TempError::NoInputs),
    }
}

} // verus!
