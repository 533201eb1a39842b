//! Process configuration: the `.env` file format and the resolution of the
//! two settings the process needs, `DATABASE_URL` and `ENV`.
//!
//! A `.env` file holds one `KEY=value` pair per line; lines that start with
//! `#` and lines without `=` are ignored, and a later pair overrides an
//! earlier one with the same key. In a value the two characters `\n` stand for
//! a newline. A setting found in the file wins over the process environment.
use vstd::prelude::*;
use std::sync::Arc;

verus! {

/// The lines of a text as `str::lines` yields them.
pub uninterp spec fn lines_of(text: Seq<char>) -> Seq<Seq<char>>;

/// Relies on `str::lines`: the lines of `text` without their line endings,
/// which depend on the text alone.
#[verifier::external_body]
fn text_lines(text: &str) -> (r: Vec<String>)
    ensures
        r@.len() == lines_of(text@).len(),
        forall|i: int| 0 <= i < r@.len() ==> (#[trigger] r@[i])@ == lines_of(text@)[i],
{
    text.lines().map(String::from).collect()
}

pub open spec fn is_first_eq(line: Seq<char>, i: int) -> bool {
    0 <= i < line.len() && line[i] == '=' && forall|j: int| 0 <= j < i ==> line[j] != '='
}

/// The pair a line defines: what precedes its first `=` and what follows it;
/// none for a comment or a line without `=`.
pub open spec fn env_entry(line: Seq<char>) -> Option<(Seq<char>, Seq<char>)> {
    if line.len() > 0 && line[0] == '#' {
        None
    } else if exists|i: int| is_first_eq(line, i) {
        let i = choose|i: int| is_first_eq(line, i);
        Some((line.take(i), line.skip(i + 1)))
    } else {
        None
    }
}

/// The pairs defined by `lines`, in order.
pub open spec fn env_entries(lines: Seq<Seq<char>>) -> Seq<(Seq<char>, Seq<char>)>
    decreases lines.len(),
{
    if lines.len() == 0 {
        Seq::empty()
    } else {
        let init = env_entries(lines.drop_last());
        match env_entry(lines.last()) {
            Some(e) => init.push(e),
            None => init,
        }
    }
}

pub open spec fn entries_view(v: Seq<(String, String)>) -> Seq<(Seq<char>, Seq<char>)> {
    v.map_values(|e: (String, String)| (e.0@, e.1@))
}

/// `s` with each `\n` escape, read left to right, replaced by a newline.
pub open spec fn unescape_newlines(s: Seq<char>) -> Seq<char>
    decreases s.len(),
{
    if s.len() == 0 {
        s
    } else if s.len() >= 2 && s[0] == '\\' && s[1] == 'n' {
        seq!['\n'] + unescape_newlines(s.skip(2))
    } else {
        seq![s[0]] + unescape_newlines(s.skip(1))
    }
}

/// The value of the last pair with this key.
pub open spec fn file_value(entries: Seq<(Seq<char>, Seq<char>)>, key: Seq<char>) -> Option<Seq<char>>
    decreases entries.len(),
{
    if entries.len() == 0 {
        None
    } else if entries.last().0 == key {
        Some(entries.last().1)
    } else {
        file_value(entries.drop_last(), key)
    }
}

/// The value of a setting: from the file when it has the key, unescaped,
/// else from the process environment.
pub open spec fn resolved(
    entries: Option<Seq<(Seq<char>, Seq<char>)>>,
    key: Seq<char>,
    from_process: Option<Seq<char>>,
) -> Option<Seq<char>> {
    match entries {
        Some(es) => match file_value(es, key) {
            Some(v) => Some(unescape_newlines(v)),
            None => from_process,
        },
        None => from_process,
    }
}

pub open spec fn has_extra_key(entries: Seq<(Seq<char>, Seq<char>)>) -> bool {
    exists|i: int|
        0 <= i < entries.len() && (#[trigger] entries[i]).0 != "DATABASE_URL"@ && entries[i].0
            != "ENV"@
}

/// The pair defined by one line, if any.
fn parse_line(line: &str) -> (r: Option<(String, String)>)
    ensures
        match env_entry(line@) {
            Some(e) => r matches Some(p) && p.0@ == e.0 && p.1@ == e.1,
            None => r is None,
        },
{
    let n = line.unicode_len();
    if n > 0 && line.get_char(0) == '#' {
        return None;
    }
    let mut i: usize = 0;
    while i < n
        invariant
            n == line@.len(),
            i <= n,
            !(line@.len() > 0 && line@[0] == '#'),
            forall|j: int| 0 <= j < i ==> line@[j] != '=',
        decreases n - i,
    {
        if line.get_char(i) == '=' {
            proof {
                assert(is_first_eq(line@, i as int));
                let k = choose|k: int| is_first_eq(line@, k);
                assert(k == i as int) by {
                    if k < i {
                        assert(line@[k] != '=');
                    } else if k > i {
                        assert(line@[i as int] != '=');
                    }
                }
            }
            let key = String::from_str(line.substring_char(0, i));
            let value = String::from_str(line.substring_char(i + 1, n));
            proof {
                assert(key@ =~= line@.take(i as int));
                assert(value@ =~= line@.skip(i + 1));
                assert(env_entry(line@) == Some((line@.take(i as int), line@.skip(i + 1))));
            }
            return Some((key, value));
        }
        i = i + 1;
    }
    None
}

/// The pairs defined by the given lines of a `.env` file, in order.
pub fn parse_env_lines(lines: &Vec<String>) -> (r: Vec<(String, String)>)
    ensures
        entries_view(r@) == env_entries(lines@.map_values(|l: String| l@)),
{
    let ghost views = lines@.map_values(|l: String| l@);
    let mut entries: Vec<(String, String)> = Vec::new();
    let mut i: usize = 0;
    while i < lines.len()
        invariant
            i <= lines@.len(),
            views == lines@.map_values(|l: String| l@),
            entries_view(entries@) == env_entries(views.take(i as int)),
        decreases lines@.len() - i,
    {
        let parsed = parse_line(lines[i].as_str());
        proof {
            let t = views.take(i + 1);
            assert(t.drop_last() =~= views.take(i as int));
            assert(t.last() == lines@[i as int]@);
        }
        match parsed {
            Some(e) => {
                entries.push(e);
                proof {
                    assert(entries_view(entries@) =~= env_entries(views.take(i + 1)));
                }
            },
            None => {},
        }
        i = i + 1;
    }
    proof {
        assert(views.take(lines@.len() as int) =~= views);
    }
    entries
}

/// The pairs defined by the text of a `.env` file, in order.
pub fn parse_env_file(text: &str) -> (r: Vec<(String, String)>)
    ensures
        entries_view(r@) == env_entries(lines_of(text@)),
{
    let lines = text_lines(text);
    proof {
        assert(lines@.map_values(|l: String| l@) =~= lines_of(text@));
    }
    parse_env_lines(&lines)
}

/// `value` with each `\n` escape replaced by a newline.
pub fn unescape_value(value: &str) -> (r: String)
    ensures
        r@ == unescape_newlines(value@),
{
    let n = value.unicode_len();
    let mut out = String::new();
    let mut i: usize = 0;
    proof {
        assert(value@.skip(0) =~= value@);
    }
    while i < n
        invariant
            n == value@.len(),
            i <= n,
            unescape_newlines(value@) == out@ + unescape_newlines(value@.skip(i as int)),
        decreases n - i,
    {
        let rest = Ghost(value@.skip(i as int));
        if i + 1 < n && value.get_char(i) == '\\' && value.get_char(i + 1) == 'n' {
            out.append("\n");
            proof {
                reveal_strlit("\n");
                assert(rest@.skip(2) =~= value@.skip(i + 2));
            }
            i = i + 2;
        } else {
            out.append(value.substring_char(i, i + 1));
            proof {
                assert(rest@.skip(1) =~= value@.skip(i + 1));
            }
            i = i + 1;
        }
    }
    proof {
        assert(out@ + Seq::<char>::empty() =~= out@);
    }
    out
}

/// The settings the process runs with.
pub struct EnvVars {
    pub database_url: String,
    pub env: String,
}

/// Why the settings could not be resolved.
#[derive(Clone, Copy, Debug, PartialEq, Eq, Structural)]
pub enum EnvError {
    /// Neither the file nor the process environment sets `DATABASE_URL`.
    MissingDatabaseUrl,
    /// Neither the file nor the process environment sets `ENV`.
    MissingEnv,
    /// The file sets a key other than `DATABASE_URL` and `ENV`.
    ExtraKeys,
}

pub open spec fn file_entries(file: Option<Vec<(String, String)>>) -> Option<Seq<(Seq<char>, Seq<char>)>> {
    match file {
        Some(v) => Some(entries_view(v@)),
        None => None,
    }
}

pub open spec fn text_view(s: Option<String>) -> Option<Seq<char>> {
    match s {
        Some(t) => Some(t@),
        None => None,
    }
}

/// The settings as `(database_url, env)`, or why they cannot be had: a
/// missing `DATABASE_URL` is reported first, then a missing `ENV`, then extra
/// keys in the file.
pub open spec fn load_outcome(
    file: Option<Seq<(Seq<char>, Seq<char>)>>,
    database_url_var: Option<Seq<char>>,
    env_var: Option<Seq<char>>,
) -> Result<(Seq<char>, Seq<char>), EnvError> {
    match resolved(file, "DATABASE_URL"@, database_url_var) {
        None => Err(EnvError::MissingDatabaseUrl),
        Some(d) => match resolved(file, "ENV"@, env_var) {
            None => Err(EnvError::MissingEnv),
            Some(e) => if file matches Some(es) && has_extra_key(es) {
                Err(EnvError::ExtraKeys)
            } else {
                Ok((d, e))
            },
        },
    }
}

/// The value of the last pair with this key.
fn find_value(entries: &Vec<(String, String)>, key: &String) -> (r: Option<String>)
    ensures
        text_view(r) == file_value(entries_view(entries@), key@),
{
    let ghost view = entries_view(entries@);
    let mut i: usize = entries.len();
    proof {
        assert(view.take(i as int) =~= view);
    }
    while i > 0
        invariant
            i <= entries@.len(),
            view == entries_view(entries@),
            file_value(view, key@) == file_value(view.take(i as int), key@),
        decreases i,
    {
        i = i - 1;
        proof {
            let t = view.take(i + 1);
            assert(t.drop_last() =~= view.take(i as int));
            assert(t.last() == (entries@[i as int].0@, entries@[i as int].1@));
        }
        if entries[i].0 == *key {
            return Some(entries[i].1.clone());
        }
    }
    None
}

/// Whether some pair has a key other than `DATABASE_URL` and `ENV`.
fn find_extra_key(entries: &Vec<(String, String)>) -> (r: bool)
    ensures
        r == has_extra_key(entries_view(entries@)),
{
    let database_url_key = String::from_str("DATABASE_URL");
    let env_key = String::from_str("ENV");
    let ghost view = entries_view(entries@);
    let mut i: usize = 0;
    while i < entries.len()
        invariant
            i <= entries@.len(),
            view == entries_view(entries@),
            database_url_key@ == "DATABASE_URL"@,
            env_key@ == "ENV"@,
            forall|j: int| 0 <= j < i ==> !((#[trigger] view[j]).0 != "DATABASE_URL"@ && view[j].0 != "ENV"@),
        decreases entries@.len() - i,
    {
        if entries[i].0 != database_url_key && entries[i].0 != env_key {
            proof {
                assert(view[i as int].0 == entries@[i as int].0@);
            }
            return true;
        }
        proof {
            assert(view[i as int].0 == entries@[i as int].0@);
        }
        i = i + 1;
    }
    false
}

/// One setting: the unescaped value of the file when it has the key, else
/// the value from the process environment.
fn resolve(file: &Option<Vec<(String, String)>>, key: &String, from_process: Option<String>) -> (r: Option<String>)
    ensures
        text_view(r) == resolved(file_entries(*file), key@, text_view(from_process)),
{
    match file {
        Some(entries) => match find_value(entries, key) {
            Some(v) => Some(unescape_value(v.as_str())),
            None => from_process,
        },
        None => from_process,
    }
}

impl EnvVars {
    /// Resolves the settings from the pairs of the `.env` file (`None` when
    /// there is no file) and from the values that the process environment
    /// gives `DATABASE_URL` and `ENV`.
    pub fn load(
        file: Option<Vec<(String, String)>>,
        database_url_var: Option<String>,
        env_var: Option<String>,
    ) -> (r: Result<EnvVars, EnvError>)
        ensures
            match r {
                Ok(v) => load_outcome(file_entries(file), text_view(database_url_var), text_view(env_var))
                    == Ok::<(Seq<char>, Seq<char>), EnvError>((v.database_url@, v.env@)),
                Err(e) => load_outcome(file_entries(file), text_view(database_url_var), text_view(env_var))
                    == Err::<(Seq<char>, Seq<char>), EnvError>(e),
            },
    {
        let ghost dv = text_view(database_url_var);
        let ghost ev = text_view(env_var);
        let database_url_key = String::from_str("DATABASE_URL");
        let env_key = String::from_str("ENV");
        let database_url = match resolve(&file, &database_url_key, database_url_var) {
            Some(v) => v,
            None => return Err(EnvError::MissingDatabaseUrl),
        };
        let env = match resolve(&file, &env_key, env_var) {
            Some(v) => v,
            None => return Err(EnvError::MissingEnv),
        };
        match &file {
            Some(entries) => {
                if find_extra_key(entries) {
                    return Err(EnvError::ExtraKeys);
                }
            },
            None => {},
        }
        Ok(EnvVars { database_url, env })
    }
}

/// A shared handle on the settings.
#[derive(Clone)]
pub struct Env(Arc<EnvVars>);

impl Env {
    pub closed spec fn vars_spec(&self) -> EnvVars {
        *self.0
    }

    pub fn new(vars: EnvVars) -> (r: Env)
        ensures
            r.vars_spec() == vars,
    {
        Env(Arc::new(vars))
    }

    pub fn vars(&self) -> (r: &EnvVars)
        ensures
            *r == self.vars_spec(),
    {
        &*self.0
    }
}

} // verus!
