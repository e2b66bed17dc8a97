//! Badge formatting: building the markdown badge line for a workflow file.

use vstd::prelude::*;
use vstd::string::StrSliceExecFns;
use vstd::string::StringExecFns;

verus! {

/// A file counts as a workflow file exactly when its name ends in `.yml`.
pub open spec fn is_workflow_file(f: Seq<char>) -> bool {
    f.len() >= 4 && f.subrange(f.len() - 4, f.len() as int) == ".yml"@
}

/// Decides whether a directory entry name is a recognized workflow file.
pub fn ends_with_yml(file_name: &str) -> (r: bool)
    ensures
        r == is_workflow_file(file_name@),
{
    proof {
        reveal_strlit(".yml");
    }
    let n = file_name.unicode_len();
    if n < 4 {
        return false;
    }
    let c0 = file_name.get_char(n - 4);
    let c1 = file_name.get_char(n - 3);
    let c2 = file_name.get_char(n - 2);
    let c3 = file_name.get_char(n - 1);
    let r = c0 == '.' && c1 == 'y' && c2 == 'm' && c3 == 'l';
    proof {
        let tail = file_name@.subrange(n - 4, n as int);
        if r {
            assert(tail =~= ".yml"@);
        } else {
            assert(tail.len() == 4);
            assert(tail[0] == file_name@[n - 4]);
            assert(tail[1] == file_name@[n - 3]);
            assert(tail[2] == file_name@[n - 2]);
            assert(tail[3] == file_name@[n - 1]);
        }
    }
    r
}

/// The bare badge image tag for one workflow file.
pub open spec fn badge_image(u: Seq<char>, r: Seq<char>, f: Seq<char>) -> Seq<char> {
    "![action](https://github.com/"@ + u + "/"@ + r + "/actions/workflows/"@ + f
        + "/badge.svg)"@
}

/// The badge image tag wrapped in a markdown link to the repository's
/// actions page.
pub open spec fn badge_with_link(u: Seq<char>, r: Seq<char>, f: Seq<char>) -> Seq<char> {
    "["@ + badge_image(u, r, f) + "](https://github.com/"@ + u + "/"@ + r + "/actions)"@
}

/// The text of one badge line, before the terminating newline.
pub open spec fn badge_text(u: Seq<char>, r: Seq<char>, f: Seq<char>, with_link: bool) -> Seq<
    char,
> {
    if with_link {
        badge_with_link(u, r, f)
    } else {
        badge_image(u, r, f)
    }
}

/// Builds the markdown badge text for one workflow file, or returns `None`
/// when the file name does not end in a recognized workflow extension.
pub fn format_badge(username: &str, repo_name: &str, file_name: &str, with_link: bool) -> (r:
    Option<String>)
    ensures
        r is Some <==> is_workflow_file(file_name@),
        r is Some ==> r.unwrap()@ == badge_text(username@, repo_name@, file_name@, with_link),
{
    if !ends_with_yml(file_name) {
        return None;
    }
    let mut s = String::new();
    if with_link {
        s.append("[");
    }
    s.append("![action](https://github.com/");
    s.append(username);
    s.append("/");
    s.append(repo_name);
    s.append("/actions/workflows/");
    s.append(file_name);
    s.append("/badge.svg)");
    if with_link {
        s.append("](https://github.com/");
        s.append(username);
        s.append("/");
        s.append(repo_name);
        s.append("/actions)");
    }
    proof {
        assert(s@ =~= badge_text(username@, repo_name@, file_name@, with_link));
    }
    Some(s)
}

/// Appends one badge line, terminated by exactly one newline, to `out` when
/// the file name is a recognized workflow file; appends nothing otherwise.
pub fn write_badge_text(
    github_username: &str,
    file_name: &str,
    current_dir: &str,
    withlink: bool,
    out: &mut String,
)
    ensures
        is_workflow_file(file_name@) ==> final(out)@ == old(out)@ + badge_text(
            github_username@,
            current_dir@,
            file_name@,
            withlink,
        ) + "\n"@,
        !is_workflow_file(file_name@) ==> final(out)@ == old(out)@,
{
    match format_badge(github_username, current_dir, file_name, withlink) {
        Some(line) => {
            out.append(line.as_str());
            out.append("\n");
        },
        None => {},
    }
}

/// What one directory entry contributes to the output: a badge line with
/// its newline for a workflow file, nothing for any other file.
pub open spec fn line_output(u: Seq<char>, r: Seq<char>, f: Seq<char>, with_link: bool) -> Seq<
    char,
> {
    if is_workflow_file(f) {
        badge_text(u, r, f, with_link) + "\n"@
    } else {
        Seq::empty()
    }
}

/// The whole output for a directory listing, in listing order.
pub open spec fn badge_lines(
    u: Seq<char>,
    r: Seq<char>,
    files: Seq<String>,
    with_link: bool,
) -> Seq<char>
    decreases files.len(),
{
    if files.len() == 0 {
        Seq::empty()
    } else {
        badge_lines(u, r, files.drop_last(), with_link) + line_output(
            u,
            r,
            files.last()@,
            with_link,
        )
    }
}

/// Renders one badge line per recognized workflow file, in listing order.
pub fn render_badges(
    username: &str,
    repo_name: &str,
    file_names: &Vec<String>,
    with_link: bool,
) -> (out: String)
    ensures
        out@ == badge_lines(username@, repo_name@, file_names@, with_link),
{
    let mut out = String::new();
    let mut i: usize = 0;
    while i < file_names.len()
        invariant
            i <= file_names@.len(),
            out@ == badge_lines(username@, repo_name@, file_names@.take(i as int), with_link),
        decreases file_names@.len() - i,
    {
        write_badge_text(username, file_names[i].as_str(), repo_name, with_link, &mut out);
        proof {
            assert(file_names@.take(i + 1).drop_last() =~= file_names@.take(i as int));
            assert(file_names@.take(i + 1).last() == file_names@[i as int]);
        }
        i += 1;
    }
    proof {
        assert(file_names@.take(file_names@.len() as int) =~= file_names@);
    }
    out
}

} // verus!
