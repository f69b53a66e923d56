//! The outcomes of git and docker for hosted sites.
use crate::bindings::{utf8_decode, utf8_lossy};
use crate::command::CommandOutput;
use crate::nginx::obj::{reply_result, Reply, ReplySpec};
use crate::text::{
    after_last, after_last_chars, chars_of, replace, replace_chars, string_from_chars, trim,
    trim_chars,
};
use vstd::prelude::*;
use vstd::utf8::{decode_utf8, valid_utf8};

verus! {

/// The project name of a git URL: its last `/` piece without `.git`.
pub open spec fn project_name_of(url: Seq<char>) -> Seq<char> {
    replace(after_last(url, '/'), ".git"@, ""@)
}

/// The project name of a git URL (see `project_name_of`).
pub fn project_name(url: &str) -> (r: String)
    ensures
        r@ == project_name_of(url@),
{
    let cs = chars_of(url);
    let last = after_last_chars(cs.as_slice(), '/');
    let git = chars_of(".git");
    let empty = chars_of("");
    proof {
        reveal_strlit(".git");
    }
    let n = replace_chars(last.as_slice(), git.as_slice(), empty.as_slice());
    string_from_chars(n.as_slice())
}

/// Where a project is cloned: `basepath/project_dir/name`.
pub open spec fn clone_path_of(basepath: Seq<char>, project_dir: Seq<char>, name: Seq<char>) -> Seq<char> {
    basepath + "/"@ + project_dir + "/"@ + name
}

/// The path a project is cloned to (see `clone_path_of`).
pub fn clone_path(basepath: &str, project_dir: &str, name: &str) -> (r: String)
    ensures
        r@ == clone_path_of(basepath@, project_dir@, name@),
{
    let mut s = String::from_str(basepath);
    s.append("/");
    s.append(project_dir);
    s.append("/");
    s.append(name);
    s
}

/// The project directory of an already cloned project: `project_dir/name`.
pub open spec fn existing_project_of(project_dir: Seq<char>, name: Seq<char>) -> Seq<char> {
    project_dir + "/"@ + name
}

/// The project directory of an already cloned project.
pub fn existing_project(project_dir: &str, name: &str) -> (r: String)
    ensures
        r@ == existing_project_of(project_dir@, name@),
{
    let mut s = String::from_str(project_dir);
    s.append("/");
    s.append(name);
    s
}

/// The project directory of a fresh clone, from the repository's path:
/// relative to the base path, without `/.git` and without a trailing `/`.
pub open spec fn cloned_project_of(repo_path: Seq<char>, basepath: Seq<char>) -> Seq<char> {
    let p = replace(replace(repo_path, basepath + "/"@, ""@), "/.git"@, ""@);
    if p.len() > 0 && p.last() == '/' {
        p.drop_last()
    } else {
        p
    }
}

/// The project directory of a fresh clone (see `cloned_project_of`).
pub fn cloned_project(repo_path: &str, basepath: &str) -> (r: String)
    ensures
        r@ == cloned_project_of(repo_path@, basepath@),
{
    let rp = chars_of(repo_path);
    let mut prefix = chars_of(basepath);
    prefix.push('/');
    assert(prefix@ =~= basepath@ + "/"@) by {
        reveal_strlit("/");
    }
    let empty = chars_of("");
    let a = replace_chars(rp.as_slice(), prefix.as_slice(), empty.as_slice());
    let git = chars_of("/.git");
    proof {
        reveal_strlit("/.git");
    }
    let b = replace_chars(a.as_slice(), git.as_slice(), empty.as_slice());
    let n = b.len();
    if n > 0 && b[n - 1] == '/' {
        let c = crate::text::copy_range(b.as_slice(), 0, n - 1);
        assert(c@ =~= b@.drop_last());
        string_from_chars(c.as_slice())
    } else {
        string_from_chars(b.as_slice())
    }
}

/// The reply of a tool check: the tool must run and succeed, and then its
/// version line is reported.
pub open spec fn tool_check_of(run: Result<(Option<i32>, Seq<u8>), Seq<char>>, prog: Seq<char>) -> Result<Seq<char>, ReplySpec> {
    match run {
        Ok((Some(c), out)) if c == 0 => Ok("Your "@ + prog + " version is "@ + trim(decode_utf8(out))),
        _ => Err((500u16, "Your "@ + prog + " has problem. Please reinstall or recheck if usable"@)),
    }
}

/// The value of a program run as its exit code and output bytes, or the
/// text of the error that kept it from starting.
pub open spec fn output_of(run: &Result<CommandOutput, String>) -> Result<(Option<i32>, Seq<u8>), Seq<char>> {
    match run {
        Ok(o) => Ok((o.code, o.stdout@)),
        Err(e) => Err(e@),
    }
}

/// Checks that a tool (docker, docker compose) is usable from its version
/// run; on success gives the line that reports its version.
pub fn tool_check(run: &Result<CommandOutput, String>, prog: &str) -> (r: Result<String, Reply>)
    requires
        match run {
            Ok(o) => o.succeeded() ==> valid_utf8(o.stdout@),
            Err(_) => true,
        },
    ensures
        match r {
            Ok(s) => tool_check_of(output_of(run), prog@) == Ok::<Seq<char>, ReplySpec>(s@),
            Err((c, m)) => tool_check_of(output_of(run), prog@) == Err::<Seq<char>, ReplySpec>((c, m@)),
        },
{
    match run {
        Ok(out) => {
            if out.success() {
                let mut bytes: Vec<u8> = Vec::new();
                let mut i: usize = 0;
                while i < out.stdout.len()
                    invariant
                        0 <= i <= out.stdout@.len(),
                        bytes@ == out.stdout@.take(i as int),
                    decreases out.stdout.len() - i,
                {
                    bytes.push(out.stdout[i]);
                    i = i + 1;
                }
                assert(out.stdout@.take(i as int) =~= out.stdout@);
                let text = match utf8_decode(bytes) {
                    Some(t) => t,
                    None => unreached(),
                };
                let cs = chars_of(text.as_str());
                let t = trim_chars(cs.as_slice());
                let mut s = String::from_str("Your ");
                s.append(prog);
                s.append(" version is ");
                let v = string_from_chars(t.as_slice());
                s.append(v.as_str());
                return Ok(s);
            }
        },
        Err(_) => {},
    }
    let mut m = String::from_str("Your ");
    m.append(prog);
    m.append(" has problem. Please reinstall or recheck if usable");
    Err((500, m))
}

/// The reply to a docker run: success, the error output where it failed,
/// the error text where it could not start.
pub open spec fn docker_reply_of(run: &Result<CommandOutput, String>) -> Result<(), ReplySpec> {
    match run {
        Ok(o) => if o.succeeded() {
            Ok(())
        } else {
            Err((500u16, decode_utf8(o.stderr@)))
        },
        Err(e) => Err((500u16, e@)),
    }
}

/// The output of a docker run that must be text where it failed.
pub open spec fn docker_errors_readable(run: &Result<CommandOutput, String>) -> bool {
    match run {
        Ok(o) => !o.succeeded() ==> valid_utf8(o.stderr@),
        Err(_) => true,
    }
}

fn bytes_text(b: &Vec<u8>) -> (r: String)
    requires
        valid_utf8(b@),
    ensures
        r@ == decode_utf8(b@),
{
    let mut bytes: Vec<u8> = Vec::new();
    let mut i: usize = 0;
    while i < b.len()
        invariant
            0 <= i <= b@.len(),
            bytes@ == b@.take(i as int),
        decreases b.len() - i,
    {
        bytes.push(b[i]);
        i = i + 1;
    }
    assert(b@.take(i as int) =~= b@);
    match utf8_decode(bytes) {
        Some(t) => t,
        None => unreached(),
    }
}

/// The reply to a docker compose run (build, down, up).
pub fn docker_reply(run: &Result<CommandOutput, String>) -> (r: Result<(), Reply>)
    requires
        docker_errors_readable(run),
    ensures
        reply_result(r) == docker_reply_of(run),
{
    match run {
        Ok(out) => if out.success() {
            Ok(())
        } else {
            Err((500, bytes_text(&out.stderr)))
        },
        Err(e) => Err((500, String::from_str(e.as_str()))),
    }
}

/// The reply to a `docker logs` run: its output where it succeeded.
pub fn docker_log_reply(run: &Result<CommandOutput, String>) -> (r: Result<String, Reply>)
    requires
        docker_errors_readable(run),
        match run {
            Ok(o) => o.succeeded() ==> valid_utf8(o.stdout@),
            Err(_) => true,
        },
    ensures
        match run {
            Ok(o) => if o.succeeded() {
                r matches Ok(s) && s@ == decode_utf8(o.stdout@)
            } else {
                r matches Err((c, m)) && c == 500 && m@ == decode_utf8(o.stderr@)
            },
            Err(e) => r matches Err((c, m)) && c == 500 && m@ == e@,
        },
{
    match run {
        Ok(out) => if out.success() {
            Ok(bytes_text(&out.stdout))
        } else {
            Err((500, bytes_text(&out.stderr)))
        },
        Err(e) => Err((500, String::from_str(e.as_str()))),
    }
}

} // verus!
