//! Where mon's files are: the home directory, `~` expansion, the session
//! file and the install directory. The environment is read by the caller and
//! handed in.
use vstd::prelude::*;
use vstd::string::*;
use crate::text::{chars_of, sub_chars, string_of, str_eq, chars_have_prefix, has_prefix};

verus! {

#[derive(Debug, Clone, Copy, PartialEq, Eq, Structural)]
pub enum PathError {
    HomeNotSet,
}

impl PathError {
    pub fn message(&self) -> (r: String)
        ensures
            r@ == "HOME is not set"@,
    {
        "HOME is not set".to_owned()
    }
}

/// `base.join(rest)` for Unix paths: an absolute `rest` replaces `base`;
/// otherwise a `/` separates them unless `base` is empty or already ends with
/// one.
pub open spec fn join_path(base: Seq<char>, rest: Seq<char>) -> Seq<char> {
    if rest.len() > 0 && rest[0] == '/' {
        rest
    } else if base.len() == 0 {
        rest
    } else if base.last() == '/' {
        base + rest
    } else {
        base + "/"@ + rest
    }
}

/// `Path::join`.
pub fn join(base: &str, rest: &str) -> (r: String)
    ensures
        r@ == join_path(base@, rest@),
{
    let b = chars_of(base);
    let x = chars_of(rest);
    if x.len() > 0 && x[0] == '/' {
        return rest.to_owned();
    }
    if b.len() == 0 {
        return rest.to_owned();
    }
    let mut r = base.to_owned();
    if b[b.len() - 1] != '/' {
        r.append("/");
    }
    r.append(rest);
    r
}

/// The home directory, from the value of `HOME`.
pub fn home_dir(home: Option<&str>) -> (r: Result<String, PathError>)
    ensures
        match home {
            Some(h) => r matches Ok(s) && s@ == h@,
            None => r == Err::<String, PathError>(PathError::HomeNotSet),
        },
{
    match home {
        Some(h) => Ok(h.to_owned()),
        None => Err(PathError::HomeNotSet),
    }
}

/// mon's configuration directory, `~/.mon`.
pub fn config_dir(home: Option<&str>) -> (r: Result<String, PathError>)
    ensures
        match home {
            Some(h) => r matches Ok(s) && s@ == join_path(h@, ".mon"@),
            None => r == Err::<String, PathError>(PathError::HomeNotSet),
        },
{
    let h = match home_dir(home) {
        Ok(h) => h,
        Err(e) => return Err(e),
    };
    Ok(join(h.as_str(), ".mon"))
}

/// `path` with a leading `~` (alone, or followed by `/`) replaced by the
/// home directory; other paths are unchanged, and need no home directory.
pub open spec fn expand_agrees(path: Seq<char>, home: Option<Seq<char>>, r: Result<Seq<char>, PathError>) -> bool {
    if path == "~"@ {
        match home {
            Some(h) => r == Ok::<Seq<char>, PathError>(h),
            None => r == Err::<Seq<char>, PathError>(PathError::HomeNotSet),
        }
    } else if has_prefix(path, "~/"@) {
        match home {
            Some(h) => r == Ok::<Seq<char>, PathError>(join_path(h, path.skip(2))),
            None => r == Err::<Seq<char>, PathError>(PathError::HomeNotSet),
        }
    } else {
        r == Ok::<Seq<char>, PathError>(path)
    }
}

pub open spec fn opt_text(o: Option<&str>) -> Option<Seq<char>> {
    match o {
        Some(s) => Some(s@),
        None => None,
    }
}

pub open spec fn result_text(r: Result<String, PathError>) -> Result<Seq<char>, PathError> {
    match r {
        Ok(s) => Ok(s@),
        Err(e) => Err(e),
    }
}

/// Only a leading `~` is expanded: a path that does not start with `~` is
/// kept as it is, with or without a home directory; `~` alone is the home
/// directory; `~/rest` is the home directory, one `/`, and `rest` (for a
/// home without a trailing `/` and a relative `rest`); and both need a
/// home directory.
pub proof fn lemma_expand_meaning(path: Seq<char>, home: Option<Seq<char>>, r: Result<Seq<char>, PathError>)
    requires
        expand_agrees(path, home, r),
    ensures
        (path.len() == 0 || path[0] != '~') ==> r == Ok::<Seq<char>, PathError>(path),
        path =~= seq!['~'] ==> match home {
            Some(h) => r == Ok::<Seq<char>, PathError>(h),
            None => r == Err::<Seq<char>, PathError>(PathError::HomeNotSet),
        },
        path.len() >= 2 && path[0] == '~' && path[1] == '/' ==> match home {
            Some(h) => (h.len() > 0 && h.last() != '/' && (path.len() == 2 || path[2] != '/')) ==> r
                == Ok::<Seq<char>, PathError>(h + seq!['/'] + path.skip(2)),
            None => r == Err::<Seq<char>, PathError>(PathError::HomeNotSet),
        },
{
    reveal_strlit("~");
    reveal_strlit("~/");
    reveal_strlit("/");
    assert("/"@ =~= seq!['/']);
    assert("~"@ =~= seq!['~']);
    assert("~/"@ =~= seq!['~', '/']);
    if path.len() >= 2 && path[0] == '~' && path[1] == '/' {
        assert(path.take(2) =~= seq!['~', '/']);
        assert(path.len() != 1);
        assert(path != "~"@);
        assert(has_prefix(path, "~/"@));
        if path.len() > 2 {
            assert(path.skip(2)[0] == path[2]);
        }
    }
    if path.len() == 0 || path[0] != '~' {
        assert(path != "~"@);
        if has_prefix(path, "~/"@) {
            assert(path.take(2)[0] == path[0]);
        }
    }
    if path =~= seq!['~'] {
        assert(path == "~"@);
    }
}

/// Expands `~` at the start of `path`.
pub fn expand_tilde(path: &str, home: Option<&str>) -> (r: Result<String, PathError>)
    ensures
        expand_agrees(path@, opt_text(home), result_text(r)),
{
    if str_eq(path, "~") {
        return home_dir(home);
    }
    let p = chars_of(path);
    let t = chars_of("~/");
    proof {
        reveal_strlit("~/");
    }
    if chars_have_prefix(&p, &t) {
        let h = match home_dir(home) {
            Ok(h) => h,
            Err(e) => return Err(e),
        };
        let rest = sub_chars(&p, 2, p.len());
        assert(rest@ =~= path@.skip(2));
        let rest_s = string_of(&rest);
        return Ok(join(h.as_str(), rest_s.as_str()));
    }
    Ok(path.to_owned())
}

/// The session file: the explicit path, else `MON_SESSION_FILE`, each with
/// `~` expanded, else `~/.mon/session.json`.
pub fn session_file(explicit: Option<&str>, env_session_file: Option<&str>, home: Option<&str>) -> (r: Result<
    String,
    PathError,
>)
    ensures
        match (explicit, env_session_file) {
            (Some(p), _) => expand_agrees(p@, opt_text(home), result_text(r)),
            (None, Some(p)) => expand_agrees(p@, opt_text(home), result_text(r)),
            (None, None) => match home {
                Some(h) => r matches Ok(s) && s@ == join_path(join_path(h@, ".mon"@), "session.json"@),
                None => r == Err::<String, PathError>(PathError::HomeNotSet),
            },
        },
{
    match explicit {
        Some(p) => return expand_tilde(p, home),
        None => {},
    }
    match env_session_file {
        Some(p) => return expand_tilde(p, home),
        None => {},
    }
    let dir = match config_dir(home) {
        Ok(d) => d,
        Err(e) => return Err(e),
    };
    Ok(join(dir.as_str(), "session.json"))
}

/// Where `mon install` copies the binary: `mon` in the given directory (with
/// `~` expanded), or in `~/.local/bin`.
pub fn install_target(bin_dir: Option<&str>, home: Option<&str>) -> (r: Result<(String, String), PathError>)
    ensures
        match bin_dir {
            Some(d) => match r {
                Ok((dir, target)) => expand_agrees(d@, opt_text(home), Ok(dir@)) && target@ == join_path(dir@, "mon"@),
                Err(e) => expand_agrees(d@, opt_text(home), Err(e)),
            },
            None => match home {
                Some(h) => r matches Ok((dir, target)) && dir@ == join_path(join_path(h@, ".local"@), "bin"@)
                    && target@ == join_path(dir@, "mon"@),
                None => r == Err::<(String, String), PathError>(PathError::HomeNotSet),
            },
        },
{
    let dir = match bin_dir {
        Some(d) => match expand_tilde(d, home) {
            Ok(x) => x,
            Err(e) => return Err(e),
        },
        None => {
            let h = match home_dir(home) {
                Ok(h) => h,
                Err(e) => return Err(e),
            };
            let local = join(h.as_str(), ".local");
            join(local.as_str(), "bin")
        },
    };
    let target = join(dir.as_str(), "mon");
    Ok((dir, target))
}

} // verus!
