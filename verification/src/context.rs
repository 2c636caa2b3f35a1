//! What the library is told of the world: the directory, the environment,
//! the files that matter, the status report and the configuration. It is a
//! snapshot of plain values; the library reads nothing else.

use crate::config::{DirenvConfig, DirenvConfigView};
use crate::text::{str_eq, to_chars};
use vstd::prelude::*;
use vstd::string::*;

verus! {

/// One file of the snapshot.
#[derive(Debug, Clone, PartialEq, Eq)]
pub struct FileEntry {
    pub path: String,
    /// The file's bytes, or `None` where the file is there but cannot be
    /// read.
    pub content: Option<Vec<u8>>,
}

/// One environment variable.
#[derive(Debug, Clone, PartialEq, Eq)]
pub struct EnvVar {
    pub name: String,
    pub value: String,
}

/// The snapshot that a state is resolved against.
#[derive(Debug, Clone, PartialEq, Eq)]
pub struct Context {
    /// The working directory, then each of its ancestors from the nearest
    /// to the root.
    pub ancestors: Vec<String>,
    /// The environment. Of two variables with one name the first counts.
    pub env: Vec<EnvVar>,
    /// The user's home directory, under which the permission store lies.
    pub home_dir: String,
    /// The files that exist. Of two entries with one path the first counts;
    /// a path without an entry does not exist.
    pub files: Vec<FileEntry>,
    /// What the status command printed, where it ran.
    pub status_output: Option<String>,
    pub config: DirenvConfig,
}

pub struct ContextView {
    pub ancestors: Seq<Seq<char>>,
    pub env: Map<Seq<char>, Seq<char>>,
    pub home_dir: Seq<char>,
    /// Each existing path with its content, `None` where it cannot be read.
    pub files: Map<Seq<char>, Option<Seq<u8>>>,
    pub status_output: Option<Seq<char>>,
    pub config: DirenvConfigView,
}

/// The map that a list of pairs stands for: a key has the value of the
/// first pair that holds it.
pub open spec fn first_match<V>(pairs: Seq<(Seq<char>, V)>) -> Map<Seq<char>, V>
    decreases pairs.len(),
{
    if pairs.len() == 0 {
        Map::empty()
    } else {
        first_match(pairs.drop_first()).insert(pairs[0].0, pairs[0].1)
    }
}

/// A pair that no earlier pair shares its key with gives the key's value.
pub proof fn lemma_first_match_found<V>(pairs: Seq<(Seq<char>, V)>, k: int)
    requires
        0 <= k < pairs.len(),
        forall|j: int| 0 <= j < k ==> pairs[j].0 != pairs[k].0,
    ensures
        first_match(pairs).contains_key(pairs[k].0),
        first_match(pairs)[pairs[k].0] == pairs[k].1,
    decreases pairs.len(),
{
    if k > 0 {
        let rest = pairs.drop_first();
        assert forall|j: int| 0 <= j < k - 1 implies (#[trigger] rest[j]).0 != rest[k - 1].0 by {
            assert(rest[j] == pairs[j + 1]);
        }
        lemma_first_match_found(rest, k - 1);
    }
}

/// A key that no pair holds is not in the map.
pub proof fn lemma_first_match_absent<V>(pairs: Seq<(Seq<char>, V)>, key: Seq<char>)
    requires
        forall|j: int| 0 <= j < pairs.len() ==> pairs[j].0 != key,
    ensures
        !first_match(pairs).contains_key(key),
    decreases pairs.len(),
{
    if pairs.len() > 0 {
        let rest = pairs.drop_first();
        assert forall|j: int| 0 <= j < rest.len() implies (#[trigger] rest[j]).0 != key by {
            assert(rest[j] == pairs[j + 1]);
        }
        lemma_first_match_absent(rest, key);
    }
}

/// The view of a file's content.
pub open spec fn content_view(content: Option<Vec<u8>>) -> Option<Seq<u8>> {
    match content {
        Some(bytes) => Some(bytes@),
        None => None,
    }
}

/// The files as pairs of path and content.
pub open spec fn file_pairs(files: Seq<FileEntry>) -> Seq<(Seq<char>, Option<Seq<u8>>)> {
    files.map_values(|f: FileEntry| (f.path@, content_view(f.content)))
}

/// The variables as pairs of name and value.
pub open spec fn env_pairs(env: Seq<EnvVar>) -> Seq<(Seq<char>, Seq<char>)> {
    env.map_values(|e: EnvVar| (e.name@, e.value@))
}

/// The views of the strings, in order.
pub open spec fn string_views(strings: Seq<String>) -> Seq<Seq<char>> {
    strings.map_values(|s: String| s@)
}

impl View for Context {
    type V = ContextView;

    open spec fn view(&self) -> ContextView {
        ContextView {
            ancestors: string_views(self.ancestors@),
            env: first_match(env_pairs(self.env@)),
            home_dir: self.home_dir@,
            files: first_match(file_pairs(self.files@)),
            status_output: self.status_output.deep_view(),
            config: self.config@,
        }
    }
}

impl ContextView {
    /// The bytes of a file, or `None` where it does not exist or cannot be
    /// read.
    pub open spec fn read(self, path: Seq<char>) -> Option<Seq<u8>> {
        if self.files.contains_key(path) {
            self.files[path]
        } else {
            None
        }
    }

    /// The value of an environment variable.
    pub open spec fn get_env(self, name: Seq<char>) -> Option<Seq<char>> {
        if self.env.contains_key(name) {
            Some(self.env[name])
        } else {
            None
        }
    }
}

impl Context {
    /// The value of an environment variable, or `None` where it is not set.
    pub fn get_env(&self, name: &str) -> (r: Option<&String>)
        ensures
            r.deep_view() == self@.get_env(name@),
    {
        let ghost pairs = env_pairs(self.env@);
        let mut i: usize = 0;
        while i < self.env.len()
            invariant
                i <= self.env.len(),
                pairs == env_pairs(self.env@),
                forall|j: int| 0 <= j < i ==> pairs[j].0 != name@,
            decreases self.env.len() - i,
        {
            if str_eq(self.env[i].name.as_str(), name) {
                proof {
                    lemma_first_match_found(pairs, i as int);
                }
                return Some(&self.env[i].value);
            }
            i += 1;
        }
        proof {
            lemma_first_match_absent(pairs, name@);
        }
        None
    }

    /// The entry of a path, or `None` where the path does not exist.
    fn entry(&self, path: &str) -> (r: Option<&FileEntry>)
        ensures
            match r {
                Some(e) => self@.files.contains_key(path@) && self@.files[path@] == content_view(
                    e.content,
                ),
                None => !self@.files.contains_key(path@),
            },
    {
        let ghost pairs = file_pairs(self.files@);
        let mut i: usize = 0;
        while i < self.files.len()
            invariant
                i <= self.files.len(),
                pairs == file_pairs(self.files@),
                forall|j: int| 0 <= j < i ==> pairs[j].0 != path@,
            decreases self.files.len() - i,
        {
            if str_eq(self.files[i].path.as_str(), path) {
                proof {
                    lemma_first_match_found(pairs, i as int);
                }
                return Some(&self.files[i]);
            }
            i += 1;
        }
        proof {
            lemma_first_match_absent(pairs, path@);
        }
        None
    }

    /// Whether a path exists.
    pub fn contains(&self, path: &str) -> (r: bool)
        ensures
            r == self@.files.contains_key(path@),
    {
        self.entry(path).is_some()
    }

    /// The bytes of a file, or `None` where it does not exist or cannot be
    /// read.
    pub fn read(&self, path: &str) -> (r: Option<&Vec<u8>>)
        ensures
            match r {
                Some(bytes) => self@.read(path@) == Some(bytes@),
                None => self@.read(path@) is None,
            },
    {
        match self.entry(path) {
            Some(e) => e.content.as_ref(),
            None => None,
        }
    }
}

/// A path below a directory. A name that begins at the root stands for
/// itself; otherwise the name follows the directory, after a `/` unless the
/// directory is empty or ends with one.
pub open spec fn spec_join_path(dir: Seq<char>, name: Seq<char>) -> Seq<char> {
    if name.len() > 0 && name[0] == '/' {
        name
    } else if dir.len() == 0 || dir.last() == '/' {
        dir + name
    } else {
        dir.push('/') + name
    }
}

/// The path of `name` below `dir`.
pub fn join_path(dir: &str, name: &str) -> (r: String)
    ensures
        r@ == spec_join_path(dir@, name@),
{
    let d = to_chars(dir);
    let n = to_chars(name);
    if n.len() > 0 && n[0] == '/' {
        return name.to_owned();
    }
    let mut out = dir.to_owned();
    if d.len() > 0 && d[d.len() - 1] != '/' {
        out.push('/');
    }
    out.append(name);
    out
}

} // verus!
