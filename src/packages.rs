//! Reading the package manager's listings: installed packages, search
//! results and pending updates.
use vstd::prelude::*;
use crate::records::{PackageInfo, PackageView};
use crate::scan::{
    has_char, has_prefix, lines_of, split_char, split_lines, split_on, split_words, starts_with,
    trim, trimmed, words, contains_char, contains_text, has_text, remove_all, without_all,
};
use crate::text::{lines_view, str_eq};

verus! {

pub open spec fn packages_view(v: Seq<PackageInfo>) -> Seq<PackageView> {
    v.map_values(|p: PackageInfo| p@)
}

/// The program that lists or searches packages for a helper: the helper
/// itself where it is an AUR helper, else the base package manager.
pub open spec fn spec_query_program(helper: Seq<char>) -> Seq<char> {
    if helper == "yay"@ || helper == "paru"@ {
        helper
    } else {
        "pacman"@
    }
}

pub fn query_program(helper: &str) -> (r: String)
    ensures
        r@ == spec_query_program(helper@),
{
    if str_eq(helper, "yay") || str_eq(helper, "paru") {
        String::from_str(helper)
    } else {
        String::from_str("pacman")
    }
}

/// A pending update, from the words "name current -> new".
pub open spec fn update_entry(w: Seq<Seq<char>>) -> PackageView {
    PackageView {
        name: w[0],
        version: w[1],
        description: Seq::empty(),
        installed: true,
        size: None,
        repo: None,
        updatable: Some(true),
        new_version: Some(w[3]),
    }
}

/// The pending updates listed by lines of "name current -> new"; lines of
/// fewer than four words are skipped.
pub open spec fn updates_from(lines: Seq<Seq<char>>) -> Seq<PackageView>
    decreases lines.len(),
{
    if lines.len() == 0 {
        Seq::empty()
    } else {
        let prev = updates_from(lines.drop_last());
        let w = words(lines.last());
        if w.len() >= 4 {
            prev.push(update_entry(w))
        } else {
            prev
        }
    }
}

/// Reads the pending updates that the package manager lists.
pub fn parse_package_updates(text: &str) -> (r: Vec<PackageInfo>)
    ensures
        packages_view(r@) == updates_from(lines_of(text@)),
{
    let lines = split_lines(text);
    let ghost ls = lines_view(lines@);
    let mut out: Vec<PackageInfo> = Vec::new();
    let mut i: usize = 0;
    while i < lines.len()
        invariant
            i <= lines@.len(),
            ls == lines_view(lines@),
            packages_view(out@) == updates_from(ls.subrange(0, i as int)),
        decreases lines.len() - i,
    {
        let ghost prefix = ls.subrange(0, i as int);
        let ghost next = ls.subrange(0, i + 1);
        assert(next.drop_last() =~= prefix);
        assert(next.last() == lines@[i as int]@);
        let w = split_words(lines[i].as_str());
        if w.len() >= 4 {
            let entry = PackageInfo {
                name: String::from_str(w[0].as_str()),
                version: String::from_str(w[1].as_str()),
                description: String::new(),
                installed: true,
                size: None,
                repo: None,
                updatable: Some(true),
                new_version: Some(String::from_str(w[3].as_str())),
            };
            assert(entry@ == update_entry(lines_view(w@)));
            let ghost before = packages_view(out@);
            out.push(entry);
            assert(packages_view(out@) =~= before.push(entry@));
        }
        i = i + 1;
    }
    assert(ls.subrange(0, lines@.len() as int) =~= ls);
    out
}

pub open spec fn name_field() -> Seq<char> {
    "Name            : "@
}

pub open spec fn version_field() -> Seq<char> {
    "Version         : "@
}

pub open spec fn description_field() -> Seq<char> {
    "Description     : "@
}

pub open spec fn size_field() -> Seq<char> {
    "Installed Size  : "@
}

pub open spec fn repository_field() -> Seq<char> {
    "Repository      : "@
}

/// The value of a field line: the line with its label taken out, trimmed.
pub open spec fn field_value(line: Seq<char>, label: Seq<char>) -> Seq<char> {
    trimmed(without_all(line, label))
}

/// A package as its "Name" line opens it.
pub open spec fn named_package(name: Seq<char>) -> PackageView {
    PackageView {
        name,
        version: Seq::empty(),
        description: Seq::empty(),
        installed: true,
        size: None,
        repo: None,
        updatable: None,
        new_version: None,
    }
}

/// One line of the detailed listing applied to the packages read so far and
/// the one being read.
pub open spec fn listing_step(
    state: (Seq<PackageView>, Option<PackageView>),
    line: Seq<char>,
) -> (Seq<PackageView>, Option<PackageView>) {
    let (done, current) = state;
    if has_prefix(line, name_field()) {
        let done = match current {
            Some(p) => done.push(p),
            None => done,
        };
        (done, Some(named_package(field_value(line, name_field()))))
    } else {
        match current {
            None => state,
            Some(p) => if has_prefix(line, version_field()) {
                (done, Some(PackageView { version: field_value(line, version_field()), ..p }))
            } else if has_prefix(line, description_field()) {
                (
                    done,
                    Some(PackageView { description: field_value(line, description_field()), ..p }),
                )
            } else if has_prefix(line, size_field()) {
                (done, Some(PackageView { size: Some(field_value(line, size_field())), ..p }))
            } else if has_prefix(line, repository_field()) {
                (done, Some(PackageView { repo: Some(field_value(line, repository_field())), ..p }))
            } else {
                state
            },
        }
    }
}

pub open spec fn listing_state(lines: Seq<Seq<char>>) -> (Seq<PackageView>, Option<PackageView>)
    decreases lines.len(),
{
    if lines.len() == 0 {
        (Seq::empty(), None)
    } else {
        listing_step(listing_state(lines.drop_last()), lines.last())
    }
}

/// The installed packages of a detailed listing: each "Name" line opens a
/// package, and the version, description, installed size and repository lines
/// that follow fill it in.
pub open spec fn installed_from(lines: Seq<Seq<char>>) -> Seq<PackageView> {
    let (done, current) = listing_state(lines);
    match current {
        Some(p) => done.push(p),
        None => done,
    }
}

fn field_text(line: &str, label: &str) -> (r: String)
    requires
        label@.len() > 0,
    ensures
        r@ == field_value(line@, label@),
{
    trim(remove_all(line, label).as_str())
}

/// Reads the installed packages from the package manager's detailed listing.
pub fn parse_installed_packages(text: &str) -> (r: Vec<PackageInfo>)
    ensures
        packages_view(r@) == installed_from(lines_of(text@)),
{
    let lines = split_lines(text);
    let ghost ls = lines_view(lines@);
    let mut done: Vec<PackageInfo> = Vec::new();
    let mut current: Option<PackageInfo> = None;
    let mut i: usize = 0;
    while i < lines.len()
        invariant
            i <= lines@.len(),
            ls == lines_view(lines@),
            (packages_view(done@), match current {
                Some(p) => Some(p@),
                None => None,
            }) == listing_state(ls.subrange(0, i as int)),
        decreases lines.len() - i,
    {
        let ghost prefix = ls.subrange(0, i as int);
        let ghost next = ls.subrange(0, i + 1);
        assert(next.drop_last() =~= prefix);
        assert(next.last() == lines@[i as int]@);
        let line = lines[i].as_str();
        proof {
            reveal_strlit("Name            : ");
            reveal_strlit("Version         : ");
            reveal_strlit("Description     : ");
            reveal_strlit("Installed Size  : ");
            reveal_strlit("Repository      : ");
        }
        if starts_with(line, "Name            : ") {
            let ghost before = packages_view(done@);
            match current {
                Some(p) => {
                    done.push(p);
                    assert(packages_view(done@) =~= before.push(p@));
                },
                None => {},
            }
            current = Some(
                PackageInfo {
                    name: field_text(line, "Name            : "),
                    version: String::new(),
                    description: String::new(),
                    installed: true,
                    size: None,
                    repo: None,
                    updatable: None,
                    new_version: None,
                },
            );
        } else {
            match current {
                None => {},
                Some(mut p) => {
                    if starts_with(line, "Version         : ") {
                        p.version = field_text(line, "Version         : ");
                    } else if starts_with(line, "Description     : ") {
                        p.description = field_text(line, "Description     : ");
                    } else if starts_with(line, "Installed Size  : ") {
                        p.size = Some(field_text(line, "Installed Size  : "));
                    } else if starts_with(line, "Repository      : ") {
                        p.repo = Some(field_text(line, "Repository      : "));
                    }
                    current = Some(p);
                },
            }
        }
        i = i + 1;
    }
    assert(ls.subrange(0, lines@.len() as int) =~= ls);
    match current {
        Some(p) => {
            let ghost before = packages_view(done@);
            done.push(p);
            assert(packages_view(done@) =~= before.push(p@));
        },
        None => {},
    }
    done
}

/// The package that a search result line at `i` announces ("repo/name
/// version [installed]"), with the next line as its description; none where
/// the line is no such line.
pub open spec fn search_entry_at(lines: Seq<Seq<char>>, i: int) -> Option<PackageView> {
    let line = lines[i];
    let parts = words(line);
    if has_char(line, '/') && trimmed(line).len() > 0 && parts.len() >= 2 && split_char(
        parts[0],
        '/',
    ).len() == 2 {
        let np = split_char(parts[0], '/');
        Some(
            PackageView {
                name: np[1],
                version: parts[1],
                description: if i + 1 < lines.len() {
                    trimmed(lines[i + 1])
                } else {
                    Seq::empty()
                },
                installed: has_text(line, "[installed]"@),
                size: None,
                repo: Some(np[0]),
                updatable: None,
                new_version: None,
            },
        )
    } else {
        None
    }
}

/// The packages of search results from line `i` on; a description line is
/// not read as a result of its own.
pub open spec fn search_from(lines: Seq<Seq<char>>, i: int) -> Seq<PackageView>
    decreases lines.len() - i,
{
    if i < 0 || i >= lines.len() {
        Seq::empty()
    } else {
        match search_entry_at(lines, i) {
            Some(p) => if i + 2 >= lines.len() {
                seq![p]
            } else {
                seq![p] + search_from(lines, i + 2)
            },
            None => search_from(lines, i + 1),
        }
    }
}

fn search_entry(lines: &Vec<String>, i: usize) -> (r: Option<PackageInfo>)
    requires
        i < lines@.len(),
    ensures
        match r {
            Some(p) => search_entry_at(lines_view(lines@), i as int) == Some(p@),
            None => search_entry_at(lines_view(lines@), i as int) is None,
        },
{
    let ghost ls = lines_view(lines@);
    let line = lines[i].as_str();
    assert(ls[i as int] == line@);
    if !contains_char(line, '/') || trim(line).unicode_len() == 0 {
        return None;
    }
    let parts = split_words(line);
    if parts.len() < 2 {
        return None;
    }
    let np = split_on(parts[0].as_str(), '/');
    if np.len() != 2 {
        return None;
    }
    let description = if lines.len() - i > 1 {
        trim(lines[i + 1].as_str())
    } else {
        String::new()
    };
    let installed = contains_text(line, "[installed]");
    Some(
        PackageInfo {
            name: String::from_str(np[1].as_str()),
            version: String::from_str(parts[1].as_str()),
            description,
            installed,
            size: None,
            repo: Some(String::from_str(np[0].as_str())),
            updatable: None,
            new_version: None,
        },
    )
}

/// Reads the packages that a search lists.
pub fn parse_search_results(text: &str) -> (r: Vec<PackageInfo>)
    ensures
        packages_view(r@) == search_from(lines_of(text@), 0),
{
    let lines = split_lines(text);
    let ghost ls = lines_view(lines@);
    let mut out: Vec<PackageInfo> = Vec::new();
    let mut i: usize = 0;
    while i < lines.len()
        invariant
            ls == lines_view(lines@),
            ls.len() == lines@.len(),
            packages_view(out@) + search_from(ls, i as int) == search_from(ls, 0),
        decreases lines.len() - i,
    {
        match search_entry(&lines, i) {
            Some(p) => {
                let ghost before = packages_view(out@);
                out.push(p);
                assert(packages_view(out@) =~= before.push(p@));
                assert(before + search_from(ls, i as int) =~= packages_view(out@) + search_from(
                    ls,
                    i + 2,
                ));
                i = if lines.len() - i >= 2 {
                    i + 2
                } else {
                    lines.len()
                };
            },
            None => {
                i = i + 1;
            },
        }
    }
    assert(search_from(ls, i as int) =~= Seq::<PackageView>::empty());
    assert(packages_view(out@) + Seq::<PackageView>::empty() =~= packages_view(out@));
    out
}

} // verus!
