//! Planning the installation of a project: enabling its repository, then
//! installing its package, both through the privileged package manager.
use crate::error::CliError;
use vstd::prelude::*;
use vstd::string::StrSliceExecFns;

verus! {

/// One command line to run: a program and its arguments.
#[derive(Debug)]
pub struct Invocation {
    pub program: String,
    pub args: Vec<String>,
}

/// The mathematical model of an `Invocation`.
pub struct InvocationView {
    pub program: Seq<char>,
    pub args: Seq<Seq<char>>,
}

impl View for Invocation {
    type V = InvocationView;

    open spec fn view(&self) -> InvocationView {
        InvocationView { program: self.program@, args: self.args.deep_view() }
    }
}

/// The position of the first `/` in `s` at or after `from`, or the length of
/// `s` when there is none.
pub open spec fn slash_from(s: Seq<char>, from: int) -> int
    decreases s.len() - from,
{
    if from >= s.len() {
        s.len() as int
    } else if 0 <= from && s[from] == '/' {
        from
    } else {
        slash_from(s, from + 1)
    }
}

/// `reference` has the form `owner/project`: exactly one `/`, with the owner
/// segment before it and the project segment after it (either may be empty).
pub open spec fn well_formed(reference: Seq<char>) -> bool {
    exists|i: int|
        #![trigger reference[i]]
        0 <= i < reference.len() && reference[i] == '/' && forall|k: int|
            0 <= k < reference.len() && k != i ==> reference[k] != '/'
}

/// The project segment of a reference of the form `owner/project`, or `None`
/// when the reference is not of that form.
pub open spec fn project_name(reference: Seq<char>) -> Option<Seq<char>> {
    let i = slash_from(reference, 0);
    if i < reference.len() && slash_from(reference, i + 1) == reference.len() {
        Some(reference.subrange(i + 1, reference.len() as int))
    } else {
        None
    }
}

/// The command that enables the repository `reference`.
pub open spec fn enable_command(reference: Seq<char>) -> InvocationView {
    InvocationView { program: "sudo"@, args: seq!["dnf"@, "copr"@, "enable"@, reference] }
}

/// The command that installs the package `name`.
pub open spec fn install_command(name: Seq<char>) -> InvocationView {
    InvocationView { program: "sudo"@, args: seq!["dnf"@, "install"@, name] }
}

/// The commands that install `reference`, in order, if it names a project.
pub open spec fn install_commands(reference: Seq<char>) -> Option<Seq<InvocationView>> {
    match project_name(reference) {
        Some(name) => Some(seq![enable_command(reference), install_command(name)]),
        None => None,
    }
}

/// The models of a list of invocations.
pub open spec fn invocation_views(cmds: Seq<Invocation>) -> Seq<InvocationView> {
    cmds.map_values(|c: Invocation| c@)
}

/// The position of the first `/` in `s` at or after `from`, or `len`.
fn find_slash(s: &str, len: usize, from: usize) -> (r: usize)
    requires
        len == s@.len(),
        from <= len,
    ensures
        r == slash_from(s@, from as int),
        from <= r <= len,
{
    let mut i: usize = from;
    while i < len
        invariant
            len == s@.len(),
            from <= i <= len,
            slash_from(s@, from as int) == slash_from(s@, i as int),
        decreases len - i,
    {
        if s.get_char(i) == '/' {
            return i;
        }
        i = i + 1;
    }
    i
}

/// The project of a reference of the form `owner/project`, or `None` when
/// the reference is not of that form.
pub fn parse_reference(reference: &str) -> (r: Option<String>)
    ensures
        match r {
            Some(name) => project_name(reference@) == Some(name@),
            None => project_name(reference@) is None,
        },
{
    let len = reference.unicode_len();
    let i = find_slash(reference, len, 0);
    if i >= len {
        return None;
    }
    let j = find_slash(reference, len, i + 1);
    if j != len {
        return None;
    }
    Some(reference.substring_char(i + 1, len).to_owned())
}

/// Builds an invocation of `sudo` with the given arguments.
fn sudo(args: Vec<String>) -> (r: Invocation)
    ensures
        r@.program == "sudo"@,
        r@.args == args.deep_view(),
{
    Invocation { program: "sudo".to_owned(), args }
}

/// The commands that install the project `reference` (`owner/project`): first
/// enable its repository, then install its package. A reference not of that
/// form (no `/`, or more than one) is refused, and no
/// command is planned for it.
pub fn install_plan(reference: &str) -> (r: Result<Vec<Invocation>, CliError>)
    ensures
        match r {
            Ok(cmds) => install_commands(reference@) == Some(invocation_views(cmds@)),
            Err(e) => install_commands(reference@) is None && e is BadReference,
        },
{
    let name = match parse_reference(reference) {
        Some(n) => n,
        None => return Err(CliError::BadReference),
    };
    let mut enable: Vec<String> = Vec::new();
    enable.push("dnf".to_owned());
    enable.push("copr".to_owned());
    enable.push("enable".to_owned());
    enable.push(reference.to_owned());
    let mut install: Vec<String> = Vec::new();
    install.push("dnf".to_owned());
    install.push("install".to_owned());
    install.push(name);
    assert(enable.deep_view() =~= enable_command(reference@).args);
    assert(install.deep_view() =~= install_command(name@).args);
    let mut cmds: Vec<Invocation> = Vec::new();
    cmds.push(sudo(enable));
    cmds.push(sudo(install));
    assert(invocation_views(cmds@) =~= install_commands(reference@)->0);
    Ok(cmds)
}

/// A reference is accepted exactly when it has the form `owner/project`: in
/// particular, a reference without a `/` is refused before any command is
/// planned.
pub proof fn lemma_reference_form(reference: Seq<char>)
    ensures
        project_name(reference) is Some <==> well_formed(reference),
        install_commands(reference) is Some <==> well_formed(reference),
        !reference.contains('/') ==> install_commands(reference) is None,
{
    let s = reference;
    lemma_slash_from(s, 0);
    let i = slash_from(s, 0);
    if project_name(s) is Some {
        lemma_slash_from(s, i + 1);
        assert forall|k: int| 0 <= k < s.len() && k != i implies s[k] != '/' by {
            if k > i {
                assert(i + 1 <= k < slash_from(s, i + 1));
            }
        }
        assert(s[i] == '/');
    }
    if well_formed(s) {
        let w = choose|w: int|
            #![trigger s[w]]
            0 <= w < s.len() && s[w] == '/' && forall|k: int|
                0 <= k < s.len() && k != w ==> s[k] != '/';
        if i < w {
            assert(s[i] == '/');
        }
        if i > w {
            assert(s[w] != '/');
        }
        assert(i == w);
        lemma_slash_from(s, i + 1);
        let j = slash_from(s, i + 1);
        if j < s.len() {
            assert(s[j] == '/');
        }
    }
    if !s.contains('/') && well_formed(s) {
        let w = choose|w: int|
            #![trigger s[w]]
            0 <= w < s.len() && s[w] == '/' && forall|k: int|
                0 <= k < s.len() && k != w ==> s[k] != '/';
        assert(s[w] == '/');
    }
}

/// A reference of the form `owner/project` is installed by exactly two
/// commands, in order: `sudo dnf copr enable <reference>`, then
/// `sudo dnf install <project>`.
pub proof fn lemma_two_commands(reference: Seq<char>)
    requires
        well_formed(reference),
    ensures
        install_commands(reference) matches Some(cmds) && cmds.len() == 2
            && cmds[0].program == "sudo"@ && cmds[0].args == seq!["dnf"@, "copr"@, "enable"@, reference]
            && cmds[1].program == "sudo"@ && cmds[1].args == seq![
            "dnf"@,
            "install"@,
            project_name(reference)->0,
        ],
{
    lemma_reference_form(reference);
}

/// `slash_from` stops at the first `/` at or after `from`, or at the end.
proof fn lemma_slash_from(s: Seq<char>, from: int)
    requires
        0 <= from <= s.len(),
    ensures
        from <= slash_from(s, from) <= s.len(),
        slash_from(s, from) < s.len() ==> s[slash_from(s, from)] == '/',
        forall|k: int| from <= k < slash_from(s, from) ==> s[k] != '/',
    decreases s.len() - from,
{
    if from < s.len() {
        lemma_slash_from(s, from + 1);
    }
}

} // verus!
