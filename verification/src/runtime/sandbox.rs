use vstd::prelude::*;

use crate::runtime::guard::SandboxPolicy;
use crate::text::{
    chars_of, concat2, contains_chars, ends, has_sub, lower, lower_chars, occurs_at,
    occurs_at_exec, starts, string_of, texts,
};

verus! {

/// A capability's command, rendered for one invocation.
#[derive(Debug, Clone)]
pub struct RenderedCommandSpec {
    pub executable: String,
    pub args: Vec<String>,
    pub working_directory: Option<String>,
}

/// What a sandboxed run produced.
#[derive(Debug, Clone)]
pub struct SandboxedExecutionResult {
    pub executable: String,
    pub args: Vec<String>,
    pub working_directory: String,
    pub exit_code: Option<i32>,
    pub stdout: String,
    pub stderr: String,
    pub timed_out: bool,
}

/// Shell interpreters the sandbox refuses to start.
pub open spec fn interpreters() -> Seq<Seq<char>> {
    seq!["powershell"@, "pwsh"@, "cmd"@, "bash"@, "sh"@]
}

/// An executable names an interpreter: its lowercased name ends with one, or holds
/// one followed by a dot.
pub open spec fn is_interpreter(executable: Seq<char>) -> bool {
    exists|i: int|
        0 <= i < 5 && (ends(lower(executable), #[trigger] interpreters()[i]) || has_sub(
            lower(executable),
            interpreters()[i] + "."@,
        ))
}

/// An argument mentions a denied path: some lowercased deny entry occurs in the
/// lowercased argument.
pub open spec fn mentions_denied(arg: Seq<char>, deny: Seq<Seq<char>>) -> bool {
    exists|j: int| 0 <= j < deny.len() && has_sub(lower(arg), lower(#[trigger] deny[j]))
}

/// Why a command is refused: the first reason, or `None` when it may run.
pub open spec fn command_refusal(spec: RenderedCommandSpec, deny: Seq<Seq<char>>) -> Option<Seq<char>> {
    if is_interpreter(spec.executable@) {
        Some("sandbox blocked interpreter-style executable: "@ + spec.executable@)
    } else if exists|i: int| 0 <= i < spec.args@.len() && mentions_denied(#[trigger] spec.args@[i]@, deny) {
        let i = choose|i: int| 0 <= i < spec.args@.len() && mentions_denied(#[trigger] spec.args@[i]@, deny)
            && forall|k: int| 0 <= k < i ==> !mentions_denied(#[trigger] spec.args@[k]@, deny);
        Some("sandbox blocked denied path-like argument: "@ + spec.args@[i]@)
    } else {
        None
    }
}

/// Backslashes turned into forward slashes.
pub open spec fn slashes(s: Seq<char>) -> Seq<char> {
    s.map_values(|c: char| if c == '\\' { '/' } else { c })
}

/// Leading `./` segments removed.
pub open spec fn strip_dot_slash(s: Seq<char>) -> Seq<char>
    decreases s.len(),
{
    if s.len() >= 2 && starts(s, "./"@) {
        strip_dot_slash(s.subrange(2, s.len() as int))
    } else {
        s
    }
}

/// A directory entry in comparable form: forward slashes, lowercase, no leading `./`.
pub open spec fn entry_form(entry: Seq<char>) -> Seq<char> {
    strip_dot_slash(lower(slashes(entry)))
}

/// A working directory passes the allowlist: some entry's comparable form is empty or
/// occurs in the directory's lowercased, forward-slashed path.
pub open spec fn dir_allowed(path: Seq<char>, allow: Seq<Seq<char>>) -> bool {
    exists|i: int| 0 <= i < allow.len() && has_sub(lower(slashes(path)), entry_form(#[trigger] allow[i]))
}

/// A working directory hits the denylist: some entry's comparable form occurs in it.
pub open spec fn dir_denied(path: Seq<char>, deny: Seq<Seq<char>>) -> bool {
    exists|i: int| 0 <= i < deny.len() && has_sub(lower(slashes(path)), entry_form(#[trigger] deny[i]))
}

fn slashes_chars(v: &Vec<char>) -> (r: Vec<char>)
    ensures
        r@ == slashes(v@),
{
    let mut r: Vec<char> = Vec::new();
    let mut i: usize = 0;
    while i < v.len()
        invariant
            i <= v.len(),
            r@ == slashes(v@.subrange(0, i as int)),
        decreases v.len() - i,
    {
        let c = v[i];
        r.push(if c == '\\' { '/' } else { c });
        i = i + 1;
        assert(r@ =~= slashes(v@.subrange(0, i as int)));
    }
    assert(v@.subrange(0, v.len() as int) =~= v@);
    r
}

fn strip_dot_slash_chars(v: &Vec<char>) -> (r: Vec<char>)
    ensures
        r@ == strip_dot_slash(v@),
{
    let prefix = chars_of("./");
    proof {
        reveal_strlit("./");
        assert(prefix@ == seq!['.', '/']);
    }
    let mut start: usize = 0;
    assert(v@.subrange(0, v.len() as int) =~= v@);
    while v.len() - start >= 2 && occurs_at_exec(v, &prefix, start)
        invariant
            start <= v.len(),
            prefix@ == "./"@,
            prefix@.len() == 2,
            strip_dot_slash(v@) == strip_dot_slash(v@.subrange(start as int, v.len() as int)),
        decreases v.len() - start,
    {
        proof {
            let rest = v@.subrange(start as int, v.len() as int);
            assert(rest.subrange(0, 2) =~= v@.subrange(start as int, start + 2));
            assert(starts(rest, "./"@));
            assert(rest.subrange(2, rest.len() as int) =~= v@.subrange(start + 2, v.len() as int));
        }
        start = start + 2;
    }
    proof {
        let rest = v@.subrange(start as int, v.len() as int);
        if rest.len() >= 2 && starts(rest, "./"@) {
            assert(rest.subrange(0, 2) =~= v@.subrange(start as int, start + 2));
            assert(occurs_at(v@, prefix@, start as int));
        }
    }
    let mut r: Vec<char> = Vec::new();
    let mut i: usize = start;
    while i < v.len()
        invariant
            start <= i <= v.len(),
            r@ == v@.subrange(start as int, i as int),
        decreases v.len() - i,
    {
        r.push(v[i]);
        i = i + 1;
        assert(r@ =~= v@.subrange(start as int, i as int));
    }
    r
}

fn entry_form_chars(entry: &str) -> (r: Vec<char>)
    ensures
        r@ == entry_form(entry@),
{
    let v = chars_of(entry);
    let s = slashes_chars(&v);
    let l = lower_chars(&s);
    strip_dot_slash_chars(&l)
}

/// Checks a rendered command against the sandbox: interpreters are refused, and so is
/// any argument that mentions a denied path.
pub fn validate_command_spec(spec: &RenderedCommandSpec, policy: &SandboxPolicy) -> (r: Result<(), String>)
    ensures
        match command_refusal(*spec, texts(policy.filesystem_deny@)) {
            None => r is Ok,
            Some(msg) => r is Err && r->Err_0@ == msg,
        },
{
    let exe = lower_chars(&chars_of(spec.executable.as_str()));
    let names: [&str; 5] = ["powershell", "pwsh", "cmd", "bash", "sh"];
    let mut blocked = false;
    let mut i: usize = 0;
    while i < 5
        invariant
            i <= 5,
            exe@ == lower(spec.executable@),
            forall|k: int| 0 <= k < 5 ==> (#[trigger] names@[k])@ == interpreters()[k],
            blocked == exists|k: int|
                0 <= k < i && (ends(exe@, #[trigger] interpreters()[k]) || has_sub(exe@, interpreters()[k] + "."@)),
        decreases 5 - i,
    {
        let name = chars_of(names[i]);
        let dotted = chars_of(concat2(names[i], ".").as_str());
        let ends_here = name.len() <= exe.len() && occurs_at_exec(&exe, &name, exe.len() - name.len());
        if ends_here || contains_chars(&exe, &dotted) {
            blocked = true;
        }
        i = i + 1;
    }
    if blocked {
        return Err(concat2("sandbox blocked interpreter-style executable: ", spec.executable.as_str()));
    }
    assert(!is_interpreter(spec.executable@));
    let mut denied: Vec<Vec<char>> = Vec::new();
    let mut d: usize = 0;
    while d < policy.filesystem_deny.len()
        invariant
            d <= policy.filesystem_deny@.len(),
            denied@.len() == d,
            forall|k: int| 0 <= k < d ==> (#[trigger] denied@[k])@ == lower(policy.filesystem_deny@[k]@),
        decreases policy.filesystem_deny@.len() - d,
    {
        denied.push(lower_chars(&chars_of(policy.filesystem_deny[d].as_str())));
        d = d + 1;
    }
    let ghost deny = texts(policy.filesystem_deny@);
    let mut a: usize = 0;
    while a < spec.args.len()
        invariant
            a <= spec.args@.len(),
            deny == texts(policy.filesystem_deny@),
            denied@.len() == deny.len(),
            forall|k: int| 0 <= k < deny.len() ==> (#[trigger] denied@[k])@ == lower(deny[k]),
            forall|k: int| 0 <= k < a ==> !mentions_denied(#[trigger] spec.args@[k]@, deny),
            !is_interpreter(spec.executable@),
        decreases spec.args@.len() - a,
    {
        let lowered = lower_chars(&chars_of(spec.args[a].as_str()));
        let mut j: usize = 0;
        let mut hit = false;
        while j < denied.len()
            invariant
                j <= denied@.len(),
                denied@.len() == deny.len(),
                lowered@ == lower(spec.args@[a as int]@),
                forall|k: int| 0 <= k < deny.len() ==> (#[trigger] denied@[k])@ == lower(deny[k]),
                hit == exists|k: int| 0 <= k < j && has_sub(lowered@, lower(#[trigger] deny[k])),
            decreases denied@.len() - j,
        {
            if contains_chars(&lowered, &denied[j]) {
                hit = true;
            }
            j = j + 1;
        }
        if hit {
            proof {
                assert(mentions_denied(spec.args@[a as int]@, deny));
                assert(0 <= a < spec.args@.len() && mentions_denied(spec.args@[a as int]@, deny)
                    && forall|k: int| 0 <= k < a ==> !mentions_denied(#[trigger] spec.args@[k]@, deny));
                let i = choose|i: int| 0 <= i < spec.args@.len() && mentions_denied(#[trigger] spec.args@[i]@, deny)
                    && forall|k: int| 0 <= k < i ==> !mentions_denied(#[trigger] spec.args@[k]@, deny);
                assert(i == a) by {
                    if i < a {
                        assert(!mentions_denied(spec.args@[i]@, deny));
                    }
                    if i > a {
                        assert(!mentions_denied(spec.args@[a as int]@, deny));
                    }
                }
            }
            return Err(concat2("sandbox blocked denied path-like argument: ", spec.args[a].as_str()));
        }
        a = a + 1;
    }
    Ok(())
}

/// Checks a working directory against the sandbox's allowlist and then its denylist.
pub fn enforce_working_directory_policy(path: &str, policy: &SandboxPolicy) -> (r: Result<(), String>)
    ensures
        !dir_allowed(path@, texts(policy.filesystem_allow@)) ==> r is Err && r->Err_0@
            == "sandbox blocked working directory outside allowlist: "@ + path@,
        dir_allowed(path@, texts(policy.filesystem_allow@)) && dir_denied(path@, texts(policy.filesystem_deny@))
            ==> r is Err && r->Err_0@ == "sandbox blocked working directory inside denylist: "@ + path@,
        dir_allowed(path@, texts(policy.filesystem_allow@)) && !dir_denied(path@, texts(policy.filesystem_deny@))
            ==> r is Ok,
{
    let normalized = lower_chars(&slashes_chars(&chars_of(path)));
    let ghost allow = texts(policy.filesystem_allow@);
    let mut allowed = false;
    let mut i: usize = 0;
    while i < policy.filesystem_allow.len()
        invariant
            i <= policy.filesystem_allow@.len(),
            allow == texts(policy.filesystem_allow@),
            normalized@ == lower(slashes(path@)),
            allowed == exists|k: int| 0 <= k < i && has_sub(normalized@, entry_form(#[trigger] allow[k])),
        decreases policy.filesystem_allow@.len() - i,
    {
        let candidate = entry_form_chars(policy.filesystem_allow[i].as_str());
        assert(allow[i as int] == policy.filesystem_allow@[i as int]@);
        if candidate.len() == 0 || contains_chars(&normalized, &candidate) {
            proof {
                if candidate.len() == 0 {
                    assert(normalized@.subrange(0, 0) =~= candidate@);
                    assert(occurs_at(normalized@, candidate@, 0));
                }
            }
            allowed = true;
        }
        i = i + 1;
    }
    if !allowed {
        return Err(concat2("sandbox blocked working directory outside allowlist: ", path));
    }
    let ghost deny = texts(policy.filesystem_deny@);
    let mut denied = false;
    let mut j: usize = 0;
    while j < policy.filesystem_deny.len()
        invariant
            j <= policy.filesystem_deny@.len(),
            deny == texts(policy.filesystem_deny@),
            normalized@ == lower(slashes(path@)),
            denied == exists|k: int| 0 <= k < j && has_sub(normalized@, entry_form(#[trigger] deny[k])),
        decreases policy.filesystem_deny@.len() - j,
    {
        let candidate = entry_form_chars(policy.filesystem_deny[j].as_str());
        assert(deny[j as int] == policy.filesystem_deny@[j as int]@);
        if contains_chars(&normalized, &candidate) {
            denied = true;
        }
        j = j + 1;
    }
    if denied {
        return Err(concat2("sandbox blocked working directory inside denylist: ", path));
    }
    Ok(())
}

/// A command the sandbox accepts starts no shell interpreter and names no denied path
/// in its arguments.
pub proof fn law_accepted_commands_are_confined(spec: RenderedCommandSpec, deny: Seq<Seq<char>>)
    requires
        command_refusal(spec, deny) is None,
    ensures
        !is_interpreter(spec.executable@),
        forall|i: int| 0 <= i < spec.args@.len() ==> !mentions_denied(#[trigger] spec.args@[i]@, deny),
{
}

} // verus!
