//! Username resolution: the configuration-file value first, then the
//! command-line flag, then the environment variable.

use crate::errors::BadgeError;
use crate::text::contains_seq;
use crate::text::contains_str;
use crate::text::match_at;
use crate::text::trim_str;
use crate::text::trimmed;
use vstd::prelude::*;
use vstd::string::StrSliceExecFns;
use vstd::string::StringExecFns;

verus! {

/// The username that a configuration line yields: the line trimmed of
/// surrounding whitespace and of the leading `name = ` token, when present.
pub open spec fn config_line_value(line: Seq<char>) -> Seq<char> {
    let t = trimmed(line);
    let tok = "name = "@;
    if t.len() >= tok.len() && t.subrange(0, tok.len() as int) == tok {
        t.skip(tok.len() as int)
    } else {
        t
    }
}

/// Extracts the username from one matching configuration line.
pub fn extract_name_value(line: &str) -> (r: String)
    ensures
        r@ == config_line_value(line@),
{
    proof {
        reveal_strlit("name = ");
    }
    let t = trim_str(line);
    let tlen = t.as_str().unicode_len();
    if tlen >= 7 && match_at(t.as_str(), 0, "name = ") {
        let v = String::from_str(t.as_str().substring_char(7, tlen));
        proof {
            assert(v@ =~= trimmed(line@).skip(7));
        }
        v
    } else {
        t
    }
}

/// The configuration-sourced username that a sequence of file lines yields:
/// the value of the last line containing `name =`, or the empty string when
/// no line matches.
pub open spec fn config_from_lines(lines: Seq<String>) -> Seq<char>
    decreases lines.len(),
{
    if lines.len() == 0 {
        Seq::empty()
    } else if contains_seq(lines.last()@, "name ="@) {
        config_line_value(lines.last()@)
    } else {
        config_from_lines(lines.drop_last())
    }
}

/// Scans the lines of a configuration file for `name =` assignments; the
/// last matching line wins. Returns the empty string when none matches.
pub fn config_value_from_lines(lines: &Vec<String>) -> (r: String)
    ensures
        r@ == config_from_lines(lines@),
{
    let mut value = String::new();
    let mut i: usize = 0;
    while i < lines.len()
        invariant
            i <= lines@.len(),
            value@ == config_from_lines(lines@.take(i as int)),
        decreases lines@.len() - i,
    {
        let line = &lines[i];
        if contains_str(line.as_str(), "name =") {
            value = extract_name_value(line.as_str());
        }
        proof {
            assert(lines@.take(i + 1).drop_last() =~= lines@.take(i as int));
            assert(lines@.take(i + 1).last() == lines@[i as int]);
        }
        i += 1;
    }
    proof {
        assert(lines@.take(lines@.len() as int) =~= lines@);
    }
    value
}

/// The view of an optional borrowed string.
pub open spec fn opt_str_view(o: Option<&str>) -> Option<Seq<char>> {
    match o {
        Some(s) => Some(s@),
        None => None,
    }
}

/// The username that the three sources yield, in priority order: the
/// configuration-file value when non-empty, else the flag value when
/// non-empty, else the environment value when set and non-empty.
pub open spec fn resolved_username(
    config: Seq<char>,
    flag: Seq<char>,
    env: Option<Seq<char>>,
) -> Option<Seq<char>> {
    if config.len() > 0 {
        Some(config)
    } else if flag.len() > 0 {
        Some(flag)
    } else if env is Some && env.unwrap().len() > 0 {
        Some(env.unwrap())
    } else {
        None
    }
}

/// Picks the effective GitHub username from the three sources, or fails
/// with `MissingUsername` when none yields a non-empty value.
pub fn resolve_username(config_user: &str, flag_name: &str, env_value: Option<&str>) -> (r:
    Result<String, BadgeError>)
    ensures
        r is Ok <==> resolved_username(config_user@, flag_name@, opt_str_view(env_value))
            is Some,
        r is Ok ==> r.unwrap()@ == resolved_username(
            config_user@,
            flag_name@,
            opt_str_view(env_value),
        ).unwrap(),
        r is Err ==> r.unwrap_err() == BadgeError::MissingUsername,
{
    if !config_user.is_empty() {
        Ok(String::from_str(config_user))
    } else if !flag_name.is_empty() {
        Ok(String::from_str(flag_name))
    } else {
        match env_value {
            Some(v) => {
                if !v.is_empty() {
                    Ok(String::from_str(v))
                } else {
                    Err(BadgeError::MissingUsername)
                }
            },
            None => Err(BadgeError::MissingUsername),
        }
    }
}

/// The configuration-file value, when non-empty, overrides both the flag
/// and the environment variable.
pub proof fn lemma_config_overrides(config: Seq<char>, flag: Seq<char>, env: Option<Seq<char>>)
    requires
        config.len() > 0,
    ensures
        resolved_username(config, flag, env) == Some(config),
{
}

/// With no configuration value, an empty flag, and the environment variable
/// unset or empty, resolution yields no username at all.
pub proof fn lemma_missing_username(config: Seq<char>, flag: Seq<char>, env: Option<Seq<char>>)
    requires
        config.len() == 0,
        flag.len() == 0,
        env is Some ==> env.unwrap().len() == 0,
    ensures
        resolved_username(config, flag, env) is None,
{
}

} // verus!
