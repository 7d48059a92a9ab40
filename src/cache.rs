//! File cache helpers: the counter whose value is kept in a cache file, and
//! the choice of the directory that cache files go to.
//!
//! Reading and writing files, running git and reading environment variables
//! happen outside this crate; the values they give are handed in here.

use vstd::prelude::*;

use crate::text::{
    all_digit_codes, codes_value, decimal, is_digit_code, parse_codes, push_decimal, trim, trimmed,
    unsigned_codes, usize_of_codes,
};

verus! {

/// The code points of a byte text, one for each byte.
pub open spec fn byte_codes(b: Seq<u8>) -> Seq<u32> {
    b.map_values(|x: u8| x as u32)
}

/// The ASCII decimal notation of `n`.
pub open spec fn decimal_bytes(n: nat) -> Seq<u8>
    decreases n,
{
    if n < 10 {
        seq![(48 + n) as u8]
    } else {
        decimal_bytes(n / 10).push((48 + n % 10) as u8)
    }
}

proof fn lemma_decimal_bytes(n: nat)
    ensures
        byte_codes(decimal_bytes(n)).len() > 0,
        all_digit_codes(byte_codes(decimal_bytes(n))),
        byte_codes(decimal_bytes(n))[0] != 43,
        codes_value(byte_codes(decimal_bytes(n))) == n,
    decreases n,
{
    let s = byte_codes(decimal_bytes(n));
    if n < 10 {
        assert(s.drop_last() =~= Seq::<u32>::empty());
        assert(codes_value(s) == codes_value(s.drop_last()) * 10 + (s.last() - 48) as nat);
    } else {
        lemma_decimal_bytes(n / 10);
        let t = byte_codes(decimal_bytes(n / 10));
        assert(s.drop_last() =~= t);
        assert(codes_value(s) == codes_value(s.drop_last()) * 10 + (s.last() - 48) as nat);
        assert((n / 10) * 10 + n % 10 == n) by {
            vstd::arithmetic::div_mod::lemma_fundamental_div_mod(n as int, 10);
        }
        assert forall|k: int| 0 <= k < s.len() implies #[trigger] is_digit_code(s[k]) by {
            if k < s.len() - 1 {
                assert(is_digit_code(t[k]));
            }
        }
    }
}

fn push_decimal_bytes(out: &mut Vec<u8>, n: usize)
    ensures
        final(out)@ == old(out)@ + decimal_bytes(n as nat),
    decreases n,
{
    if n >= 10 {
        push_decimal_bytes(out, n / 10);
    }
    out.push(48 + (n % 10) as u8);
    assert(final(out)@ =~= old(out)@ + decimal_bytes(n as nat));
}

/// A counter whose value is kept in a cache file, written there in decimal.
#[derive(Debug)]
pub struct CacheCounter(pub usize);

/// The content of a counter file is not the decimal notation of a `usize`.
#[derive(Debug, PartialEq, Eq, Structural)]
pub struct InvalidCounter;

impl Default for CacheCounter {
    fn default() -> (r: Self)
        ensures
            r.0 == 0,
    {
        CacheCounter(0)
    }
}

impl CacheCounter {
    /// The file content for the counter: its value in ASCII decimal.
    pub fn as_file_bytes(&self) -> (r: Vec<u8>)
        ensures
            r@ == decimal_bytes(self.0 as nat),
    {
        let mut out = Vec::new();
        push_decimal_bytes(&mut out, self.0);
        assert(out@ =~= decimal_bytes(self.0 as nat));
        out
    }

    /// The counter that a file content writes: an optional `+`, then ASCII
    /// digits whose value fits in a `usize`. Anything else is refused.
    pub fn from_file_bytes(bytes: &[u8]) -> (r: Result<CacheCounter, InvalidCounter>)
        ensures
            r is Ok <==> usize_of_codes(byte_codes(bytes@)) is Some,
            r matches Ok(c) ==> usize_of_codes(byte_codes(bytes@)) == Some(c.0),
    {
        let n = bytes.len();
        let mut codes: Vec<u32> = Vec::new();
        let mut i: usize = 0;
        while i < n
            invariant
                n == bytes@.len(),
                i <= n,
                codes@ == byte_codes(bytes@.subrange(0, i as int)),
            decreases n - i,
        {
            codes.push(bytes[i] as u32);
            assert(byte_codes(bytes@.subrange(0, i + 1)) =~= byte_codes(
                bytes@.subrange(0, i as int),
            ).push(bytes@[i as int] as u32));
            i = i + 1;
        }
        assert(bytes@.subrange(0, n as int) =~= bytes@);
        match parse_codes(&codes) {
            Some(value) => Ok(CacheCounter(value)),
            None => Err(InvalidCounter),
        }
    }

    /// The counter after one more use; `None` where the value cannot grow.
    pub fn incremented(&self) -> (r: Option<CacheCounter>)
        ensures
            self.0 < usize::MAX ==> (r matches Some(c) && c.0 == self.0 + 1),
            self.0 == usize::MAX ==> r is None,
    {
        if self.0 < usize::MAX {
            Some(CacheCounter(self.0 + 1))
        } else {
            None
        }
    }

    /// The value in decimal.
    pub fn to_string(&self) -> (r: String)
        ensures
            r@ == decimal(self.0 as nat),
    {
        let mut out = String::new();
        push_decimal(&mut out, self.0 as u64);
        out
    }
}

/// Writing a counter to its file and reading the file back gives the same
/// value.
pub proof fn counter_file_round_trip(value: usize)
    ensures
        usize_of_codes(byte_codes(decimal_bytes(value as nat))) == Some(value),
{
    lemma_decimal_bytes(value as nat);
    let s = byte_codes(decimal_bytes(value as nat));
    assert(unsigned_codes(s) == s);
}

/// Whether a character may stand in a plain path component.
pub open spec fn is_plain_char(ch: char) -> bool {
    ch != '/' && ch != '\\' && ch != ':'
}

/// Whether a path component is a plain name: not empty, not `.` or `..`,
/// and without `/`, `\` or `:`, so that no platform reads it as a root, a
/// prefix or a step up.
pub open spec fn is_plain_component(c: Seq<char>) -> bool {
    &&& c.len() > 0
    &&& c != seq!['.']
    &&& c != seq!['.', '.']
    &&& forall|i: int| 0 <= i < c.len() ==> #[trigger] is_plain_char(c[i])
}

/// Whether a path has no `?`, the mark of a Windows verbatim prefix (under
/// which a joined path is normalised).
pub open spec fn has_no_verbatim_mark(s: Seq<char>) -> bool {
    forall|i: int| 0 <= i < s.len() ==> #[trigger] s[i] != '?'
}

/// Whether `r` is `dir` with `component` adjoined: at most one separator
/// (`/`, or `\` on Windows) between them.
pub open spec fn adjoined(r: Seq<char>, dir: Seq<char>, component: Seq<char>) -> bool {
    r == dir + component || exists|sep: char|
        (sep == '/' || sep == '\\') && r == dir + seq![sep] + component
}

/// Whether `r` is `dir` with `components` adjoined one after another.
pub open spec fn joined_path(r: Seq<char>, dir: Seq<char>, components: Seq<Seq<char>>) -> bool
    decreases components.len(),
{
    if components.len() == 0 {
        r == dir
    } else {
        exists|prefix: Seq<char>|
            joined_path(prefix, dir, components.drop_last()) && adjoined(
                r,
                prefix,
                components.last(),
            )
    }
}

/// Relies on `std::path::Path::join` (read back with `to_string_lossy`, which
/// keeps text that came from a `&str`): a relative plain component extends
/// the directory, with a separator where one is needed.
#[verifier::external_body]
fn join_path(dir: &str, component: &str) -> (r: String)
    ensures
        is_plain_component(component@) && has_no_verbatim_mark(dir@) ==> adjoined(
            r@,
            dir@,
            component@,
        ),
{
    std::path::Path::new(dir).join(component).to_string_lossy().into_owned()
}

proof fn lemma_adjoined_keeps_no_mark(r: Seq<char>, dir: Seq<char>, component: Seq<char>)
    requires
        adjoined(r, dir, component),
        has_no_verbatim_mark(dir),
        has_no_verbatim_mark(component),
    ensures
        has_no_verbatim_mark(r),
{
    if r == dir + component {
        assert forall|i: int| 0 <= i < r.len() implies #[trigger] r[i] != '?' by {
            if i < dir.len() {
                assert(r[i] == dir[i]);
            } else {
                assert(r[i] == component[i - dir.len()]);
            }
        }
    } else {
        let sep = choose|sep: char| (sep == '/' || sep == '\\') && r == dir + seq![sep] + component;
        assert forall|i: int| 0 <= i < r.len() implies #[trigger] r[i] != '?' by {
            if i < dir.len() {
                assert(r[i] == dir[i]);
            } else if i == dir.len() {
                assert(r[i] == sep);
            } else {
                assert(r[i] == component[i - dir.len() - 1]);
            }
        }
    }
}

/// What the cache directory is chosen from: the top directory of the git
/// repository (or why it is unknown), and the `XDG_CACHE_HOME` and `HOME`
/// environment variables where they are set.
#[derive(Debug)]
pub struct CacheEnv {
    pub git_work_dir: Result<String, String>,
    pub xdg_cache_home: Option<String>,
    pub home: Option<String>,
}

/// The directory that a cache directory is placed under, and which kind it is.
#[derive(Debug)]
pub enum CacheRoot {
    /// The repository's top directory; the cache is its `.cache`.
    Repo(String),
    /// `XDG_CACHE_HOME`; the cache is its `accounting`.
    XdgCacheHome(String),
    /// `HOME`; the cache is its `.cache/accounting`.
    Home(String),
}

impl CacheRoot {
    /// The directory that the cache directory is placed under.
    pub open spec fn spec_dir(&self) -> Seq<char> {
        match self {
            CacheRoot::Repo(d) => d@,
            CacheRoot::XdgCacheHome(d) => d@,
            CacheRoot::Home(d) => d@,
        }
    }

    /// The components joined under that directory, in order.
    pub open spec fn spec_components(&self) -> Seq<Seq<char>> {
        match self {
            CacheRoot::Repo(_) => seq![".cache"@],
            CacheRoot::XdgCacheHome(_) => seq!["accounting"@],
            CacheRoot::Home(_) => seq![".cache"@, "accounting"@],
        }
    }

    /// The directory that the cache directory is placed under.
    pub fn dir(&self) -> (r: &str)
        ensures
            r@ == self.spec_dir(),
    {
        match self {
            CacheRoot::Repo(d) => d.as_str(),
            CacheRoot::XdgCacheHome(d) => d.as_str(),
            CacheRoot::Home(d) => d.as_str(),
        }
    }

    /// The components joined under the directory, in order.
    pub fn components(&self) -> (r: Vec<&'static str>)
        ensures
            r@.map_values(|c: &'static str| c@) == self.spec_components(),
    {
        let mut parts = Vec::new();
        match self {
            CacheRoot::Repo(_) => {
                parts.push(".cache");
            },
            CacheRoot::XdgCacheHome(_) => {
                parts.push("accounting");
            },
            CacheRoot::Home(_) => {
                parts.push(".cache");
                parts.push("accounting");
            },
        }
        assert(parts@.map_values(|c: &'static str| c@) =~= self.spec_components());
        parts
    }

    /// The cache directory: the directory with the components adjoined in
    /// order (stated where the directory has no verbatim mark).
    pub fn path(&self) -> (r: String)
        ensures
            has_no_verbatim_mark(self.spec_dir()) ==> joined_path(
                r@,
                self.spec_dir(),
                self.spec_components(),
            ),
    {
        let parts = self.components();
        let ghost comps = self.spec_components();
        proof {
            reveal_strlit(".cache");
            reveal_strlit("accounting");
            assert forall|k: int| 0 <= k < comps.len() implies is_plain_component(#[trigger] comps[k])
                && has_no_verbatim_mark(comps[k]) by {
                assert(comps[k] == ".cache"@ || comps[k] == "accounting"@);
            }
        }
        let mut path = String::from_str(self.dir());
        let mut i: usize = 0;
        assert(comps.subrange(0, 0) =~= Seq::<Seq<char>>::empty());
        while i < parts.len()
            invariant
                i <= parts@.len(),
                parts@.map_values(|c: &'static str| c@) == comps,
                forall|k: int|
                    0 <= k < comps.len() ==> is_plain_component(#[trigger] comps[k])
                        && has_no_verbatim_mark(comps[k]),
                has_no_verbatim_mark(self.spec_dir()) ==> joined_path(
                    path@,
                    self.spec_dir(),
                    comps.subrange(0, i as int),
                ) && has_no_verbatim_mark(path@),
            decreases parts@.len() - i,
        {
            let ghost before = path@;
            assert(parts@[i as int]@ == comps[i as int]);
            path = join_path(path.as_str(), parts[i]);
            proof {
                if has_no_verbatim_mark(self.spec_dir()) {
                    lemma_adjoined_keeps_no_mark(path@, before, comps[i as int]);
                    let next = comps.subrange(0, i + 1);
                    assert(next.drop_last() =~= comps.subrange(0, i as int));
                    assert(next.last() == comps[i as int]);
                    assert(joined_path(before, self.spec_dir(), next.drop_last()));
                }
            }
            i = i + 1;
        }
        assert(comps.subrange(0, comps.len() as int) =~= comps);
        path
    }
}

/// The message when no cache directory can be chosen.
pub open spec fn no_cache_dir_message() -> Seq<char> {
    "No suitable cache dir found"@
}

/// A place for cache files.
pub trait CacheLocation {
    /// The directory that cache files go to, or why there is none.
    fn cache_dir(env: &CacheEnv) -> Result<String, String>;

    /// The path of a cache file, given relative to the cache directory.
    fn file_path(env: &CacheEnv, path_relative: &str) -> (r: Result<String, String>)
        ensures
            exists|dir: Result<String, String>|
                call_ensures(Self::cache_dir, (env,), dir) && match dir {
                    Ok(d) => r is Ok && (is_plain_component(path_relative@) && has_no_verbatim_mark(
                        d@,
                    ) ==> (r matches Ok(p) && adjoined(p@, d@, path_relative@))),
                    Err(e) => r == Err::<String, String>(e),
                },
    {
        match Self::cache_dir(env) {
            Ok(dir) => Ok(join_path(dir.as_str(), path_relative)),
            Err(e) => Err(e),
        }
    }
}

/// Cache files in the `.cache` directory of the current git repository: the
/// path of `CacheRoot::Repo` with the repository's top directory.
pub struct CacheInRepo {}

impl CacheInRepo {
    /// The repository's top directory from what `git rev-parse --show-toplevel`
    /// printed: the output without surrounding white space.
    pub fn work_dir_from_output(stdout: &str) -> (r: String)
        ensures
            r@ == trimmed(stdout@),
    {
        String::from_str(trim(stdout))
    }
}

impl CacheLocation for CacheInRepo {
    fn cache_dir(env: &CacheEnv) -> (r: Result<String, String>)
        ensures
            match env.git_work_dir {
                Ok(d) => r is Ok && (has_no_verbatim_mark(d@) ==> (r matches Ok(p) && joined_path(
                    p@,
                    d@,
                    seq![".cache"@],
                ))),
                Err(e) => r == Err::<String, String>(e),
            },
    {
        match &env.git_work_dir {
            Ok(dir) => Ok(CacheRoot::Repo(dir.clone()).path()),
            Err(e) => Err(e.clone()),
        }
    }
}

/// Cache files in the git repository where there is one, else in the user's
/// cache directory.
pub struct RepoOrXdg {}

impl RepoOrXdg {
    /// Where the cache directory goes: under the repository's top directory
    /// where it is known, else under `XDG_CACHE_HOME`, else under `HOME`.
    pub fn cache_root(env: &CacheEnv) -> (r: Option<CacheRoot>)
        ensures
            match env.git_work_dir {
                Ok(repo) => r == Some(CacheRoot::Repo(repo)),
                Err(_) => match env.xdg_cache_home {
                    Some(xdg) => r == Some(CacheRoot::XdgCacheHome(xdg)),
                    None => match env.home {
                        Some(home) => r == Some(CacheRoot::Home(home)),
                        None => r is None,
                    },
                },
            },
    {
        if let Ok(repo) = &env.git_work_dir {
            return Some(CacheRoot::Repo(repo.clone()));
        }
        if let Some(xdg) = &env.xdg_cache_home {
            return Some(CacheRoot::XdgCacheHome(xdg.clone()));
        }
        if let Some(home) = &env.home {
            return Some(CacheRoot::Home(home.clone()));
        }
        None
    }
}

impl CacheLocation for RepoOrXdg {
    /// The `path()` of `RepoOrXdg::cache_root(env)`, where there is a root.
    fn cache_dir(env: &CacheEnv) -> (r: Result<String, String>)
        ensures
            r is Ok <==> (env.git_work_dir is Ok || env.xdg_cache_home is Some || env.home is Some),
            r matches Err(e) ==> e@ == no_cache_dir_message(),
            match env.git_work_dir {
                Ok(repo) => has_no_verbatim_mark(repo@) ==> (r matches Ok(p) && joined_path(
                    p@,
                    repo@,
                    seq![".cache"@],
                )),
                Err(_) => match env.xdg_cache_home {
                    Some(xdg) => has_no_verbatim_mark(xdg@) ==> (r matches Ok(p) && joined_path(
                        p@,
                        xdg@,
                        seq!["accounting"@],
                    )),
                    None => match env.home {
                        Some(home) => has_no_verbatim_mark(home@) ==> (r matches Ok(p)
                            && joined_path(p@, home@, seq![".cache"@, "accounting"@])),
                        None => true,
                    },
                },
            },
    {
        match RepoOrXdg::cache_root(env) {
            Some(root) => Ok(root.path()),
            None => Err(String::from_str("No suitable cache dir found")),
        }
    }
}

} // verus!
