//! The dispatch loop.
//!
//! A subcommand name is resolved through three strategies in a fixed,
//! non-configurable priority order: built-in handler first, then alias
//! expansion, then external executable.  An alias expands to a token
//! sequence that is re-parsed as a fresh invocation and re-dispatched,
//! so an alias may reach another alias or a built-in; a cycle among
//! aliases is detected with a visited-name set and reported as its own
//! error instead of recursing forever.
//!
//! The whole protocol is the specification function [`spec_resolve`];
//! the executable [`resolve`] is proved to return exactly that, and the
//! lemmas at the end state the resolution laws: built-in priority,
//! alias-expansion correctness, transitive chains, and the external
//! fallback's first-match rule.

use vstd::prelude::*;

use crate::aliases::{
    alias_keys, alias_lookup, lemma_alias_hit_is_key, AliasDefView, AliasTable,
};
use crate::args::{parse, spec_parse, ParseError, ParseErrorView, ParsedView, SubcommandView};
use crate::registry::{registry_index, CommandRegistry};
use crate::search::{
    dir_contains, external_name, external_name_spec, find_external, first_hit, join_path_spec,
    lemma_first_hit, spec_search, Directory, DirectoryView,
};
use crate::strutil::{clone_strings, contains_string};

verus! {

/// The outcome of resolving one subcommand.
#[derive(Debug, PartialEq, Eq)]
pub enum Resolution {
    /// Invoke the built-in handler at this registry position with these
    /// remaining arguments.
    Builtin { index: usize, args: Vec<String> },
    /// Run the executable at `path` with this argument vector (the
    /// command name first), inheriting the standard streams.
    External { path: String, argv: Vec<String> },
    /// An alias expansion carried no subcommand: print the top-level
    /// help and succeed.
    Help,
    /// No built-in, alias, or external executable matched this name.
    Unresolved { name: String },
    /// Alias expansion returned to a name already being expanded.
    AliasCycle { name: String },
    /// An alias expansion did not parse as an invocation.
    BadParse { error: ParseError },
}

/// Mathematical image of a `Resolution`.
pub ghost enum ResolutionView {
    Builtin { index: int, args: Seq<Seq<char>> },
    External { path: Seq<char>, argv: Seq<Seq<char>> },
    Help,
    Unresolved { name: Seq<char> },
    AliasCycle { name: Seq<char> },
    BadParse { error: ParseErrorView },
}

impl View for Resolution {
    type V = ResolutionView;

    open spec fn view(&self) -> ResolutionView {
        match self {
            Resolution::Builtin { index, args } => ResolutionView::Builtin {
                index: *index as int,
                args: args.deep_view(),
            },
            Resolution::External { path, argv } => ResolutionView::External {
                path: path@,
                argv: argv.deep_view(),
            },
            Resolution::Help => ResolutionView::Help,
            Resolution::Unresolved { name } => ResolutionView::Unresolved { name: name@ },
            Resolution::AliasCycle { name } => ResolutionView::AliasCycle { name: name@ },
            Resolution::BadParse { error } => ResolutionView::BadParse { error: error@ },
        }
    }
}

/// One round of the resolution protocol, carrying the names whose
/// expansion is in progress.  `fuel` bounds the recursion; every use
/// gives it more fuel than distinct alias names exist, so the fuel-out
/// answer (treated as a cycle) is never reached on cycle-free input.
pub open spec fn resolve_from(
    reg: Seq<Seq<char>>,
    al: Seq<AliasDefView>,
    dirs: Seq<DirectoryView>,
    cmd: Seq<char>,
    args: Seq<Seq<char>>,
    visited: Seq<Seq<char>>,
    fuel: nat,
) -> ResolutionView
    decreases fuel,
{
    match registry_index(reg, cmd) {
        Some(i) => ResolutionView::Builtin { index: i, args },
        None => match alias_lookup(al, cmd) {
            Some(exp) => if visited.contains(cmd) || fuel == 0 {
                ResolutionView::AliasCycle { name: cmd }
            } else {
                match spec_parse(exp + args) {
                    Err(e) => ResolutionView::BadParse { error: e },
                    Ok(p) => match p.sub {
                        None => ResolutionView::Help,
                        Some(sub) => resolve_from(
                            reg,
                            al,
                            dirs,
                            sub.name,
                            sub.args,
                            visited.push(cmd),
                            (fuel - 1) as nat,
                        ),
                    },
                }
            },
            None => match spec_search(dirs, external_name_spec(cmd)) {
                Some(path) => ResolutionView::External { path, argv: seq![cmd] + args },
                None => ResolutionView::Unresolved { name: cmd },
            },
        },
    }
}

/// What dispatching a subcommand means.
pub open spec fn spec_resolve(
    reg: Seq<Seq<char>>,
    al: Seq<AliasDefView>,
    dirs: Seq<DirectoryView>,
    cmd: Seq<char>,
    args: Seq<Seq<char>>,
) -> ResolutionView {
    resolve_from(reg, al, dirs, cmd, args, Seq::empty(), (al.len() + 1) as nat)
}

/// A duplicate-free sequence of alias keys cannot outnumber the alias
/// definitions.
proof fn lemma_visited_bound(visited: Seq<Seq<char>>, al: Seq<AliasDefView>)
    requires
        visited.no_duplicates(),
        forall|k: int| 0 <= k < visited.len() ==> alias_keys(al).contains(visited[k]),
    ensures
        visited.len() <= al.len(),
{
    broadcast use vstd::seq_lib::seq_to_set_is_finite;

    visited.unique_seq_to_set();
    let vs = visited.to_set();
    let ks = alias_keys(al).to_set();
    assert forall|x: Seq<char>| vs.contains(x) implies ks.contains(x) by {
        assert(visited.contains(x));
        let i = choose|i: int| 0 <= i < visited.len() && visited[i] == x;
        assert(alias_keys(al).contains(visited[i]));
    }
    vstd::set_lib::lemma_len_subset(vs, ks);
    alias_keys(al).lemma_cardinality_of_set();
}

/// Resolve one subcommand against the registry, the alias table and
/// the ordered search locations.  The answer is exactly what
/// [`spec_resolve`] assigns to the inputs.
pub fn resolve(
    reg: &CommandRegistry,
    al: &AliasTable,
    dirs: &Vec<Directory>,
    cmd: &String,
    args: &Vec<String>,
) -> (r: Resolution)
    ensures
        r@ == spec_resolve(reg@, al@, dirs.deep_view(), cmd@, args.deep_view()),
{
    let ghost regv = reg@;
    let ghost alv = al@;
    let ghost dirsv = dirs.deep_view();
    let ghost goal = spec_resolve(regv, alv, dirsv, cmd@, args.deep_view());
    let mut cur_cmd: String = cmd.clone();
    let mut cur_args: Vec<String> = clone_strings(args);
    let mut visited: Vec<String> = Vec::new();
    proof {
        assert(visited.deep_view() =~= Seq::<Seq<char>>::empty());
    }
    loop
        invariant
            regv == reg@,
            alv == al@,
            dirsv == dirs.deep_view(),
            goal == spec_resolve(reg@, al@, dirs.deep_view(), cmd@, args.deep_view()),
            visited.deep_view().no_duplicates(),
            forall|k: int|
                0 <= k < visited.len() ==> alias_keys(alv).contains(visited.deep_view()[k]),
            visited.len() <= alv.len(),
            visited.deep_view().len() == visited.len(),
            resolve_from(
                regv,
                alv,
                dirsv,
                cur_cmd@,
                cur_args.deep_view(),
                visited.deep_view(),
                (alv.len() + 1 - visited.len()) as nat,
            ) == goal,
        decreases alv.len() - visited.len(),
    {
        let ghost fuel = (alv.len() + 1 - visited.len()) as nat;
        let ghost vdv = visited.deep_view();
        if let Some(idx) = reg.find(cur_cmd.as_str()) {
            return Resolution::Builtin { index: idx, args: cur_args };
        }
        match al.lookup(cur_cmd.as_str()) {
            Some(exp) => {
                if contains_string(&visited, cur_cmd.as_str()) {
                    return Resolution::AliasCycle { name: cur_cmd };
                }
                proof {
                    assert(fuel != 0);
                }
                let ghost exp_dv = exp.deep_view();
                let ghost args_dv = cur_args.deep_view();
                let mut merged = exp;
                merged.append(&mut cur_args);
                proof {
                    assert forall|k: int|
                        0 <= k < merged.deep_view().len() implies merged.deep_view()[k] == (exp_dv
                        + args_dv)[k] by {
                        if k < exp_dv.len() {
                            assert(merged.deep_view()[k] == merged@[k].deep_view());
                        } else {
                            assert(merged.deep_view()[k] == merged@[k].deep_view());
                        }
                    }
                    assert(merged.deep_view() =~= exp_dv + args_dv);
                }
                match parse(&merged) {
                    Err(e) => {
                        return Resolution::BadParse { error: e };
                    },
                    Ok(p) => {
                        match p.sub {
                            None => {
                                return Resolution::Help;
                            },
                            Some(sub) => {
                                proof {
                                    lemma_alias_hit_is_key(alv, cur_cmd@, 0);
                                    let pushed = vdv.push(cur_cmd@);
                                    assert forall|k: int|
                                        0 <= k < pushed.len() implies alias_keys(alv).contains(
                                        pushed[k],
                                    ) by {
                                        if k < vdv.len() {
                                            assert(pushed[k] == vdv[k]);
                                        } else {
                                            assert(pushed[k] == cur_cmd@);
                                        }
                                    }
                                    lemma_visited_bound(pushed, alv);
                                }
                                let ghost prev = visited.deep_view();
                                visited.push(cur_cmd);
                                proof {
                                    assert forall|k: int|
                                        0 <= k < visited.deep_view().len() implies visited.deep_view()[k]
                                        == prev.push(cur_cmd@)[k] by {
                                        if k < prev.len() {
                                            assert(visited.deep_view()[k] == visited@[k].deep_view());
                                        } else {
                                            assert(visited.deep_view()[k] == visited@[k].deep_view());
                                        }
                                    }
                                    assert(visited.deep_view() =~= prev.push(cur_cmd@));
                                }
                                cur_cmd = sub.name;
                                cur_args = sub.args;
                            },
                        }
                    },
                }
            },
            None => {
                let ext = external_name(cur_cmd.as_str());
                match find_external(dirs, ext.as_str()) {
                    Some(path) => {
                        let ghost args_dv = cur_args.deep_view();
                        let mut argv: Vec<String> = Vec::new();
                        let ghost name_v = cur_cmd@;
                        argv.push(cur_cmd);
                        argv.append(&mut cur_args);
                        proof {
                            assert forall|k: int|
                                0 <= k < argv.deep_view().len() implies argv.deep_view()[k] == (seq![
                                    name_v,
                                ] + args_dv)[k] by {
                                assert(argv.deep_view()[k] == argv@[k].deep_view());
                            }
                            assert(argv.deep_view() =~= seq![name_v] + args_dv);
                        }
                        return Resolution::External { path, argv };
                    },
                    None => {
                        return Resolution::Unresolved { name: cur_cmd };
                    },
                }
            },
        }
    }
}

/// Built-in lookup has absolute priority: a command name present in
/// the registry dispatches to exactly its handler, with the caller's
/// remaining arguments unchanged, whatever the alias table and the
/// search locations hold — neither is consulted.
pub proof fn lemma_builtin_priority(
    reg: Seq<Seq<char>>,
    al: Seq<AliasDefView>,
    dirs: Seq<DirectoryView>,
    cmd: Seq<char>,
    args: Seq<Seq<char>>,
    i: int,
)
    requires
        registry_index(reg, cmd) == Some(i),
    ensures
        spec_resolve(reg, al, dirs, cmd, args) == (ResolutionView::Builtin { index: i, args }),
{
}

/// The result of resolving a name is unchanged by shrinking the
/// visited set or raising the fuel, as long as the original run did
/// not report a cycle.
proof fn lemma_resolve_visited_irrelevant(
    reg: Seq<Seq<char>>,
    al: Seq<AliasDefView>,
    dirs: Seq<DirectoryView>,
    cmd: Seq<char>,
    args: Seq<Seq<char>>,
    v1: Seq<Seq<char>>,
    f1: nat,
    v2: Seq<Seq<char>>,
    f2: nat,
)
    requires
        !(resolve_from(reg, al, dirs, cmd, args, v1, f1) is AliasCycle),
        forall|x: Seq<char>| v2.contains(x) ==> v1.contains(x),
        f2 >= f1,
    ensures
        resolve_from(reg, al, dirs, cmd, args, v2, f2) == resolve_from(
            reg,
            al,
            dirs,
            cmd,
            args,
            v1,
            f1,
        ),
    decreases f1,
{
    match registry_index(reg, cmd) {
        Some(_) => {},
        None => {
            match alias_lookup(al, cmd) {
                Some(exp) => {
                    assert(!v1.contains(cmd) && f1 != 0);
                    assert(!v2.contains(cmd));
                    match spec_parse(exp + args) {
                        Err(_) => {},
                        Ok(p) => {
                            match p.sub {
                                None => {},
                                Some(sub) => {
                                    assert forall|x: Seq<char>|
                                        v2.push(cmd).contains(x) implies v1.push(cmd).contains(
                                        x,
                                    ) by {
                                        let i = choose|i: int|
                                            0 <= i < v2.push(cmd).len() && v2.push(cmd)[i] == x;
                                        if i < v2.len() {
                                            assert(v2[i] == x);
                                            assert(v1.contains(x));
                                            let j = choose|j: int|
                                                0 <= j < v1.len() && v1[j] == x;
                                            assert(v1.push(cmd)[j] == x);
                                        } else {
                                            assert(x == cmd);
                                            assert(v1.push(cmd)[v1.len() as int] == x);
                                        }
                                    }
                                    lemma_resolve_visited_irrelevant(
                                        reg,
                                        al,
                                        dirs,
                                        sub.name,
                                        sub.args,
                                        v1.push(cmd),
                                        (f1 - 1) as nat,
                                        v2.push(cmd),
                                        (f2 - 1) as nat,
                                    );
                                },
                            }
                        },
                    }
                },
                None => {},
            }
        },
    }
}

/// Where alias dispatch lands, given the parse of the merged token
/// sequence: a parse failure is fatal, a missing subcommand prints
/// help, and a subcommand is dispatched as a fresh top-level
/// invocation.
pub open spec fn dispatch_of_parse(
    reg: Seq<Seq<char>>,
    al: Seq<AliasDefView>,
    dirs: Seq<DirectoryView>,
    r: Result<ParsedView, ParseErrorView>,
) -> ResolutionView {
    match r {
        Err(e) => ResolutionView::BadParse { error: e },
        Ok(p) => match p.sub {
            None => ResolutionView::Help,
            Some(sub) => spec_resolve(reg, al, dirs, sub.name, sub.args),
        },
    }
}

/// Alias expansion correctness: when a non-built-in name has an alias,
/// invoking it with extra arguments is the same as re-parsing the
/// expansion tokens followed by those arguments as a brand-new
/// top-level invocation and dispatching that.  The one input family
/// left out is an alias cycle, where the re-dispatch would not
/// terminate and resolution reports the cycle instead.
pub proof fn lemma_alias_expansion(
    reg: Seq<Seq<char>>,
    al: Seq<AliasDefView>,
    dirs: Seq<DirectoryView>,
    cmd: Seq<char>,
    args: Seq<Seq<char>>,
    exp: Seq<Seq<char>>,
)
    requires
        registry_index(reg, cmd) is None,
        alias_lookup(al, cmd) == Some(exp),
        !(spec_resolve(reg, al, dirs, cmd, args) is AliasCycle),
    ensures
        spec_resolve(reg, al, dirs, cmd, args) == dispatch_of_parse(
            reg,
            al,
            dirs,
            spec_parse(exp + args),
        ),
{
    let empty = Seq::<Seq<char>>::empty();
    assert(!empty.contains(cmd));
    match spec_parse(exp + args) {
        Err(_) => {},
        Ok(p) => {
            match p.sub {
                None => {},
                Some(sub) => {
                    assert(spec_resolve(reg, al, dirs, cmd, args) == resolve_from(
                        reg,
                        al,
                        dirs,
                        sub.name,
                        sub.args,
                        empty.push(cmd),
                        al.len(),
                    ));
                    assert forall|x: Seq<char>| empty.contains(x) implies empty.push(
                        cmd,
                    ).contains(x) by {}
                    lemma_resolve_visited_irrelevant(
                        reg,
                        al,
                        dirs,
                        sub.name,
                        sub.args,
                        empty.push(cmd),
                        al.len(),
                        empty,
                        (al.len() + 1) as nat,
                    );
                },
            }
        },
    }
}

/// Alias chains resolve transitively: an alias whose expansion names a
/// second alias, whose own expansion names a built-in, dispatches to
/// that built-in's handler.
pub proof fn lemma_alias_chain(
    reg: Seq<Seq<char>>,
    al: Seq<AliasDefView>,
    dirs: Seq<DirectoryView>,
    a: Seq<char>,
    args: Seq<Seq<char>>,
    exp_a: Seq<Seq<char>>,
    pa: ParsedView,
    b: Seq<char>,
    args_b: Seq<Seq<char>>,
    exp_b: Seq<Seq<char>>,
    pb: ParsedView,
    c: Seq<char>,
    args_c: Seq<Seq<char>>,
    i: int,
)
    requires
        registry_index(reg, a) is None,
        registry_index(reg, b) is None,
        alias_lookup(al, a) == Some(exp_a),
        alias_lookup(al, b) == Some(exp_b),
        b != a,
        spec_parse(exp_a + args) == Ok::<ParsedView, ParseErrorView>(pa),
        pa.sub == Some(SubcommandView { name: b, args: args_b }),
        spec_parse(exp_b + args_b) == Ok::<ParsedView, ParseErrorView>(pb),
        pb.sub == Some(SubcommandView { name: c, args: args_c }),
        registry_index(reg, c) == Some(i),
    ensures
        spec_resolve(reg, al, dirs, a, args) == (ResolutionView::Builtin {
            index: i,
            args: args_c,
        }),
{
    let empty = Seq::<Seq<char>>::empty();
    assert(!empty.contains(a));
    lemma_alias_hit_is_key(al, a, 0);
    assert(al.len() >= 1) by {
        assert(alias_keys(al).contains(a));
    }
    let v1 = empty.push(a);
    assert(!v1.contains(b)) by {
        assert forall|j: int| 0 <= j < v1.len() implies v1[j] != b by {
            assert(v1[0] == a);
        }
    }
    assert(spec_resolve(reg, al, dirs, a, args) == resolve_from(
        reg,
        al,
        dirs,
        b,
        args_b,
        v1,
        al.len(),
    ));
    assert(resolve_from(reg, al, dirs, b, args_b, v1, al.len()) == resolve_from(
        reg,
        al,
        dirs,
        c,
        args_c,
        v1.push(b),
        (al.len() - 1) as nat,
    ));
}

/// The external fallback invokes the first matching executable of the
/// ordered search, or fails naming the attempted command, and is
/// reached only with both lookups missing (a registry hit resolves by
/// `lemma_builtin_priority`, an alias hit by `lemma_alias_expansion`).
pub proof fn lemma_external_fallback(
    reg: Seq<Seq<char>>,
    al: Seq<AliasDefView>,
    dirs: Seq<DirectoryView>,
    cmd: Seq<char>,
    args: Seq<Seq<char>>,
)
    requires
        registry_index(reg, cmd) is None,
        alias_lookup(al, cmd) is None,
    ensures
        spec_resolve(reg, al, dirs, cmd, args) == (match first_hit(dirs, external_name_spec(cmd)) {
            Some(k) => ResolutionView::External {
                path: join_path_spec(dirs[k].path, external_name_spec(cmd)),
                argv: seq![cmd] + args,
            },
            None => ResolutionView::Unresolved { name: cmd },
        }),
        match first_hit(dirs, external_name_spec(cmd)) {
            Some(k) => 0 <= k < dirs.len() && dir_contains(dirs[k], external_name_spec(cmd)) && (
            forall|j: int| 0 <= j < k ==> !dir_contains(dirs[j], external_name_spec(cmd))),
            None => forall|j: int|
                0 <= j < dirs.len() ==> !dir_contains(dirs[j], external_name_spec(cmd)),
        },
{
    lemma_first_hit(dirs, external_name_spec(cmd));
}

} // verus!
