//! Observable output of the introspection paths and of the error
//! cases, computed as plain lines of text.
//!
//! The version banner, the list of installed commands and the error
//! messages are specified to the character; the caller only prints the
//! lines it is handed, in order, one per output line.

use vstd::prelude::*;

use crate::args::ParseError;
use crate::config::ConfigError;
use crate::registry::CommandRegistry;
use crate::search::{join_path_spec, Directory, DirectoryView};
use crate::strutil::{dec_of, spec_starts_with, str_starts_with, u64_to_string};

verus! {

/// Commit metadata of the running build, when available.
#[derive(Debug, PartialEq, Eq)]
pub struct CommitInfo {
    pub hash: String,
    pub date: String,
}

/// Mathematical image of `CommitInfo`.
pub ghost struct CommitInfoView {
    pub hash: Seq<char>,
    pub date: Seq<char>,
}

impl View for CommitInfo {
    type V = CommitInfoView;

    open spec fn view(&self) -> CommitInfoView {
        CommitInfoView { hash: self.hash@, date: self.date@ }
    }
}

/// What the build-metadata collaborator reports: the one-line banner,
/// the release triple, and commit metadata when it was recorded.
#[derive(Debug, PartialEq, Eq)]
pub struct VersionInfo {
    pub line: String,
    pub major: u64,
    pub minor: u64,
    pub patch: u64,
    pub commit: Option<CommitInfo>,
}

/// Mathematical image of `VersionInfo`.
pub ghost struct VersionInfoView {
    pub line: Seq<char>,
    pub major: u64,
    pub minor: u64,
    pub patch: u64,
    pub commit: Option<CommitInfoView>,
}

impl View for VersionInfo {
    type V = VersionInfoView;

    open spec fn view(&self) -> VersionInfoView {
        VersionInfoView {
            line: self.line@,
            major: self.major,
            minor: self.minor,
            patch: self.patch,
            commit: match self.commit {
                Some(ref c) => Some(c@),
                None => None,
            },
        }
    }
}

/// The `release:` line of the verbose version banner.
pub open spec fn release_line(v: VersionInfoView) -> Seq<char> {
    "release: "@ + dec_of(v.major as nat) + "."@ + dec_of(v.minor as nat) + "."@ + dec_of(
        v.patch as nat,
    )
}

/// The lines the version path prints: exactly the banner without
/// verbosity; with verbosity, the banner, the release triple, and the
/// two commit lines exactly when commit metadata is present.
pub open spec fn spec_version_lines(v: VersionInfoView, verbose: bool) -> Seq<Seq<char>> {
    if !verbose {
        seq![v.line]
    } else {
        match v.commit {
            None => seq![v.line, release_line(v)],
            Some(ci) => seq![
                v.line,
                release_line(v),
                "commit-hash: "@ + ci.hash,
                "commit-date: "@ + ci.date,
            ],
        }
    }
}

/// Compute the version banner lines.
pub fn version_lines(v: &VersionInfo, verbose: bool) -> (r: Vec<String>)
    ensures
        r.deep_view() == spec_version_lines(v@, verbose),
{
    let mut r: Vec<String> = Vec::new();
    r.push(v.line.clone());
    if verbose {
        let mut rel = String::from_str("release: ");
        rel.append(u64_to_string(v.major).as_str());
        rel.append(".");
        rel.append(u64_to_string(v.minor).as_str());
        rel.append(".");
        rel.append(u64_to_string(v.patch).as_str());
        proof {
            assert(rel@ == release_line(v@));
        }
        r.push(rel);
        if let Some(ref ci) = v.commit {
            let mut h = String::from_str("commit-hash: ");
            h.append(ci.hash.as_str());
            r.push(h);
            let mut d = String::from_str("commit-date: ");
            d.append(ci.date.as_str());
            r.push(d);
        }
    }
    proof {
        assert(r.deep_view() =~= spec_version_lines(v@, verbose));
    }
    r
}

/// The version banner is one line exactly when verbosity is off, and
/// carries commit lines exactly when commit metadata is present.
pub proof fn lemma_version_line_count(v: VersionInfoView, verbose: bool)
    ensures
        !verbose ==> spec_version_lines(v, verbose).len() == 1,
        verbose && v.commit is None ==> spec_version_lines(v, verbose).len() == 2,
        verbose && v.commit is Some ==> spec_version_lines(v, verbose).len() == 4,
        spec_version_lines(v, verbose)[0] == v.line,
        verbose ==> spec_version_lines(v, verbose)[1] == release_line(v),
{
}

/// One entry of the installed-command listing: a command name and,
/// for an external command, the path it resolved to.
#[derive(Debug, PartialEq, Eq)]
pub struct CommandListing {
    pub name: String,
    pub path: Option<String>,
}

/// Mathematical image of a `CommandListing`.
pub ghost struct ListingView {
    pub name: Seq<char>,
    pub path: Option<Seq<char>>,
}

impl View for CommandListing {
    type V = ListingView;

    open spec fn view(&self) -> ListingView {
        ListingView {
            name: self.name@,
            path: match self.path {
                Some(ref p) => Some(p@),
                None => None,
            },
        }
    }
}

impl DeepView for CommandListing {
    type V = ListingView;

    open spec fn deep_view(&self) -> ListingView {
        self@
    }
}

/// A name padded with spaces to a column width.
pub open spec fn pad_to(s: Seq<char>, w: nat) -> Seq<char> {
    if s.len() >= w {
        s
    } else {
        s + Seq::new((w - s.len()) as nat, |i: int| ' ')
    }
}

/// The column the listing aligns paths at.
pub open spec fn listing_width() -> nat {
    20
}

/// One line of the installed-command listing: indented name; in
/// verbose form the name is padded to the path column, and the
/// resolved path follows when there is one.
pub open spec fn spec_list_line(l: ListingView, verbose: bool) -> Seq<char> {
    if verbose {
        match l.path {
            Some(p) => "    "@ + pad_to(l.name, listing_width()) + " "@ + p,
            None => "    "@ + pad_to(l.name, listing_width()),
        }
    } else {
        "    "@ + l.name
    }
}

/// The whole listing: a heading, then one line per command, in the
/// order the commands were given.
pub open spec fn spec_list_lines(ls: Seq<ListingView>, verbose: bool) -> Seq<Seq<char>> {
    seq!["Installed Commands:"@] + ls.map_values(|l: ListingView| spec_list_line(l, verbose))
}

/// Pad a name with spaces up to the path column.
fn pad_name(name: &str) -> (r: String)
    ensures
        r@ == pad_to(name@, listing_width()),
{
    let mut r = String::from_str(name);
    let n = name.unicode_len();
    if n >= 20 {
        return r;
    }
    proof {
        assert(r@ =~= name@ + Seq::new(0, |k: int| ' '));
    }
    let mut i: usize = 0;
    while i < 20 - n
        invariant
            n == name@.len(),
            n < 20,
            i <= 20 - n,
            r@ == name@ + Seq::new(i as nat, |k: int| ' '),
        decreases 20 - n - i,
    {
        let ghost prev = r@;
        r.append(" ");
        proof {
            reveal_strlit(" ");
            assert(r@ =~= name@ + Seq::new((i + 1) as nat, |k: int| ' '));
        }
        i = i + 1;
    }
    r
}

/// Compute the lines the list path prints.
pub fn list_lines(ls: &Vec<CommandListing>, verbose: bool) -> (r: Vec<String>)
    ensures
        r.deep_view() == spec_list_lines(ls.deep_view(), verbose),
{
    let ghost lsv = ls.deep_view();
    let mut r: Vec<String> = Vec::new();
    r.push(String::from_str("Installed Commands:"));
    let mut i: usize = 0;
    while i < ls.len()
        invariant
            lsv == ls.deep_view(),
            lsv.len() == ls.len(),
            i <= ls.len(),
            r.len() == i + 1,
            r.deep_view()[0] == "Installed Commands:"@,
            forall|k: int| 0 <= k < i ==> r.deep_view()[k + 1] == spec_list_line(lsv[k], verbose),
        decreases ls.len() - i,
    {
        let l = &ls[i];
        proof {
            assert(lsv[i as int] == l@);
        }
        let line = if verbose {
            let mut s = String::from_str("    ");
            s.append(pad_name(l.name.as_str()).as_str());
            match l.path {
                Some(ref p) => {
                    s.append(" ");
                    s.append(p.as_str());
                },
                None => {},
            }
            s
        } else {
            let mut s = String::from_str("    ");
            s.append(l.name.as_str());
            s
        };
        proof {
            assert(line@ == spec_list_line(lsv[i as int], verbose));
        }
        let ghost prev = r.deep_view();
        r.push(line);
        proof {
            assert forall|k: int|
                0 <= k < r.deep_view().len() implies r.deep_view()[k] == prev.push(line@)[k] by {
                assert(r.deep_view()[k] == r@[k].deep_view());
            }
        }
        i = i + 1;
    }
    proof {
        assert(r.deep_view() =~= spec_list_lines(lsv, verbose));
    }
    r
}

/// An entry of a search location that the naming convention claims for
/// a command: the conventional prefix followed by a non-empty name.
pub open spec fn is_external_entry(e: Seq<char>) -> bool {
    spec_starts_with(e, "cargo-"@) && e.len() > "cargo-"@.len()
}

/// The listing an external entry contributes: the command name after
/// the prefix, and the entry's resolved path.
pub open spec fn entry_listing(d: DirectoryView, e: Seq<char>) -> ListingView {
    ListingView {
        name: e.subrange("cargo-"@.len() as int, e.len() as int),
        path: Some(join_path_spec(d.path, e)),
    }
}

/// Listings of one directory's entries at or after `j`, in entry
/// order.
pub open spec fn dir_listings_from(d: DirectoryView, j: int) -> Seq<ListingView>
    decreases d.entries.len() - j,
{
    if j < 0 || j >= d.entries.len() {
        Seq::empty()
    } else {
        (if is_external_entry(d.entries[j]) {
            seq![entry_listing(d, d.entries[j])]
        } else {
            Seq::empty()
        }) + dir_listings_from(d, j + 1)
    }
}

/// Listings of the search locations at or after `i`, in search order.
pub open spec fn ext_listings_from(dirs: Seq<DirectoryView>, i: int) -> Seq<ListingView>
    decreases dirs.len() - i,
{
    if i < 0 || i >= dirs.len() {
        Seq::empty()
    } else {
        dir_listings_from(dirs[i], 0) + ext_listings_from(dirs, i + 1)
    }
}

/// The full installed-command listing: every built-in, in registry
/// order and without a path, then every discoverable external command
/// in search order, with its path.
pub open spec fn spec_installed(reg: Seq<Seq<char>>, dirs: Seq<DirectoryView>) -> Seq<ListingView> {
    reg.map_values(|n: Seq<char>| ListingView { name: n, path: None }) + ext_listings_from(dirs, 0)
}

/// Enumerate the installed commands: built-ins from the registry, then
/// external commands found in the search locations.
pub fn installed_commands(reg: &CommandRegistry, dirs: &Vec<Directory>) -> (r: Vec<CommandListing>)
    ensures
        r.deep_view() == spec_installed(reg@, dirs.deep_view()),
{
    let ghost regv = reg@;
    let ghost dirsv = dirs.deep_view();
    let ghost builtin_part = regv.map_values(|n: Seq<char>| ListingView { name: n, path: None });
    let mut r: Vec<CommandListing> = Vec::new();
    let mut i: usize = 0;
    while i < reg.names.len()
        invariant
            regv == reg@,
            regv.len() == reg.names.len(),
            i <= regv.len(),
            r.len() == i,
            forall|k: int| 0 <= k < i ==> r.deep_view()[k] == builtin_part[k],
            builtin_part == regv.map_values(
                |n: Seq<char>| ListingView { name: n, path: None },
            ),
        decreases regv.len() - i,
    {
        let name = reg.names[i].clone();
        proof {
            assert(name@ == regv[i as int]);
        }
        let ghost prev = r.deep_view();
        r.push(CommandListing { name, path: None });
        proof {
            assert forall|k: int| 0 <= k < r.len() implies r.deep_view()[k] == builtin_part[k] by {
                assert(r.deep_view()[k] == r@[k].deep_view());
                if k < prev.len() {
                    assert(r@[k].deep_view() == prev[k]);
                }
            }
        }
        i = i + 1;
    }
    proof {
        assert(r.deep_view() =~= builtin_part);
        assert(r.deep_view() + ext_listings_from(dirsv, 0) =~= spec_installed(regv, dirsv));
    }
    let mut d: usize = 0;
    while d < dirs.len()
        invariant
            dirsv == dirs.deep_view(),
            dirsv.len() == dirs.len(),
            d <= dirs.len(),
            builtin_part == regv.map_values(
                |n: Seq<char>| ListingView { name: n, path: None },
            ),
            r.deep_view() + ext_listings_from(dirsv, d as int) == spec_installed(regv, dirsv),
        decreases dirs.len() - d,
    {
        let dir = &dirs[d];
        proof {
            assert(dirsv[d as int] == dir@);
        }
        let mut j: usize = 0;
        while j < dir.entries.len()
            invariant
                dirsv == dirs.deep_view(),
                dirsv.len() == dirs.len(),
                d < dirs.len(),
                dirsv[d as int] == dir@,
                dir.entries.len() == dir@.entries.len(),
                j <= dir.entries.len(),
                r.deep_view() + dir_listings_from(dir@, j as int) + ext_listings_from(
                    dirsv,
                    d as int + 1,
                ) == spec_installed(regv, dirsv),
            decreases dir.entries.len() - j,
        {
            let e = &dir.entries[j];
            proof {
                assert(dir@.entries[j as int] == e@);
            }
            let ghost before = r.deep_view();
            if str_starts_with(e.as_str(), "cargo-") && e.unicode_len() > 6 {
                proof {
                    reveal_strlit("cargo-");
                    assert(is_external_entry(e@));
                }
                let name = e.as_str().substring_char(6, e.unicode_len()).to_owned();
                let path = crate::search::join_path(dir.path.as_str(), e.as_str());
                proof {
                    reveal_strlit("cargo-");
                }
                let listing = CommandListing { name, path: Some(path) };
                proof {
                    assert(listing@ == entry_listing(dir@, e@));
                }
                r.push(listing);
                proof {
                    assert forall|k: int|
                        0 <= k < r.deep_view().len() implies r.deep_view()[k] == before.push(
                        entry_listing(dir@, e@),
                    )[k] by {
                        assert(r.deep_view()[k] == r@[k].deep_view());
                    }
                    assert(r.deep_view() =~= before.push(entry_listing(dir@, e@)));
                    assert(before.push(entry_listing(dir@, e@)) + dir_listings_from(
                        dir@,
                        j as int + 1,
                    ) =~= before + dir_listings_from(dir@, j as int));
                }
            } else {
                proof {
                    reveal_strlit("cargo-");
                    assert(!is_external_entry(e@));
                    assert(dir_listings_from(dir@, j as int) == dir_listings_from(
                        dir@,
                        j as int + 1,
                    )) by {
                        assert(Seq::<ListingView>::empty() + dir_listings_from(dir@, j as int + 1)
                            =~= dir_listings_from(dir@, j as int + 1));
                    }
                }
            }
            j = j + 1;
        }
        proof {
            assert(dir_listings_from(dir@, dir@.entries.len() as int) =~= Seq::<
                ListingView,
            >::empty());
            assert(r.deep_view() + Seq::<ListingView>::empty() =~= r.deep_view());
        }
        d = d + 1;
    }
    proof {
        assert(ext_listings_from(dirsv, dirsv.len() as int) =~= Seq::<ListingView>::empty());
        assert(r.deep_view() + Seq::<ListingView>::empty() =~= r.deep_view());
    }
    r
}

/// The message of an unresolvable command, naming the exact command
/// string attempted.
pub fn unresolved_message(name: &str) -> (r: String)
    ensures
        r@ == "no such command: "@ + name@,
{
    let mut s = String::from_str("no such command: ");
    s.append(name);
    s
}

/// The message of a detected alias cycle, naming the command whose
/// expansion returned to itself.
pub fn cycle_message(name: &str) -> (r: String)
    ensures
        r@ == "alias cycle detected: "@ + name@,
{
    let mut s = String::from_str("alias cycle detected: ");
    s.append(name);
    s
}

/// The usage message of a parse failure, naming the offending token.
pub fn parse_error_message(e: &ParseError) -> (r: String)
    ensures
        r@ == (match e@ {
            crate::args::ParseErrorView::UnknownFlag(t) => "unknown flag: "@ + t,
            crate::args::ParseErrorView::MissingValue(t) => "missing value for: "@ + t,
        }),
{
    match e {
        ParseError::UnknownFlag(t) => {
            let mut s = String::from_str("unknown flag: ");
            s.append(t.as_str());
            s
        },
        ParseError::MissingValue(t) => {
            let mut s = String::from_str("missing value for: ");
            s.append(t.as_str());
            s
        },
    }
}

/// The message of a configuration failure, naming the rejected value.
pub fn config_error_message(e: &ConfigError) -> (r: String)
    ensures
        r@ == (match e@ {
            crate::config::ConfigErrorView::InvalidColor(c) => "invalid color setting: "@ + c,
        }),
{
    match e {
        ConfigError::InvalidColor(c) => {
            let mut s = String::from_str("invalid color setting: ");
            s.append(c.as_str());
            s
        },
    }
}

} // verus!
