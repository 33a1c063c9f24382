//! A model of file-system paths as a root followed by plain component names.
//!
//! A path is kept as the list of its components, the first being the root
//! directory handed in by the platform (for example the per-user data
//! directory); `join` appends one component, as `Path::join` does for a
//! relative, separator-free name. The display string follows the platform's
//! separator rules.

use vstd::prelude::*;
use crate::external::push_char;
use vstd::string::StringExecFns;
use vstd::string::StrSliceExecFns;

verus! {

/// The operating system the paths are meant for.
#[derive(Clone, Copy, Debug, PartialEq, Eq, Structural)]
pub enum Platform {
    Windows,
    MacOs,
    OtherUnix,
}

/// `c` separates components on `platform` (`/` everywhere, also `\` on Windows).
pub open spec fn is_separator(c: char, platform: Platform) -> bool {
    c == '/' || (platform == Platform::Windows && c == '\\')
}

/// The separator `Path::join` inserts on `platform`.
pub open spec fn main_separator(platform: Platform) -> char {
    if platform == Platform::Windows { '\\' } else { '/' }
}

/// Appending `part` to the display string `acc`, as `PathBuf::push` does for a
/// relative component: a separator goes between unless `acc` is empty or
/// already ends with one.
pub open spec fn join_text(acc: Seq<char>, part: Seq<char>, platform: Platform) -> Seq<char> {
    if acc.len() == 0 {
        part
    } else if is_separator(acc.last(), platform) {
        acc + part
    } else {
        acc.push(main_separator(platform)) + part
    }
}

/// The display string of a path made of `parts`.
pub open spec fn render(parts: Seq<Seq<char>>, platform: Platform) -> Seq<char>
    decreases parts.len(),
{
    if parts.len() == 0 {
        Seq::empty()
    } else {
        join_text(render(parts.drop_last(), platform), parts.last(), platform)
    }
}

/// `prefix` is a leading run of the components of `path`.
pub open spec fn path_starts_with(path: Seq<Seq<char>>, prefix: Seq<Seq<char>>) -> bool {
    prefix.len() <= path.len() && path.subrange(0, prefix.len() as int) == prefix
}

/// The components of `parts` as character sequences.
pub open spec fn parts_view(parts: Seq<String>) -> Seq<Seq<char>> {
    parts.map_values(|s: String| s@)
}

/// A path: a root directory followed by plain component names.
pub struct AppPath {
    parts: Vec<String>,
}

impl View for AppPath {
    type V = Seq<Seq<char>>;

    closed spec fn view(&self) -> Seq<Seq<char>> {
        parts_view(self.parts@)
    }
}

fn copy_strings(v: &Vec<String>) -> (r: Vec<String>)
    ensures
        parts_view(r@) == parts_view(v@),
{
    let mut r: Vec<String> = Vec::new();
    let mut i: usize = 0;
    while i < v.len()
        invariant
            i <= v@.len(),
            parts_view(r@) == parts_view(v@.subrange(0, i as int)),
        decreases v@.len() - i,
    {
        let s = v[i].clone();
        r.push(s);
        assert(parts_view(v@.subrange(0, i + 1)) =~= parts_view(v@.subrange(0, i as int)).push(v@[i as int]@));
        assert(parts_view(r@) =~= parts_view(v@.subrange(0, i as int)).push(v@[i as int]@));
        i = i + 1;
    }
    assert(v@.subrange(0, v@.len() as int) =~= v@);
    r
}

impl Clone for AppPath {
    fn clone(&self) -> (r: Self)
        ensures
            r@ == self@,
    {
        AppPath { parts: copy_strings(&self.parts) }
    }
}

impl AppPath {
    /// A path made of a single root directory.
    pub fn from_root(root: &str) -> (r: AppPath)
        ensures
            r@ == seq![root@],
    {
        let mut parts: Vec<String> = Vec::new();
        parts.push(String::from_str(root));
        let r = AppPath { parts };
        assert(r@ =~= seq![root@]);
        r
    }

    /// A path from its components, first the root.
    pub fn from_components(parts: Vec<String>) -> (r: AppPath)
        ensures
            r@ == parts_view(parts@),
    {
        AppPath { parts }
    }

    /// The components, first the root.
    pub fn components(&self) -> (r: Vec<String>)
        ensures
            parts_view(r@) == self@,
    {
        copy_strings(&self.parts)
    }

    /// The number of components.
    pub fn len(&self) -> (n: usize)
        ensures
            n == self@.len(),
    {
        self.parts.len()
    }

    /// This path with `name` appended (`Path::join` with a plain name).
    pub fn join(&self, name: &str) -> (r: AppPath)
        ensures
            r@ == self@.push(name@),
    {
        let mut parts = copy_strings(&self.parts);
        let ghost before = parts@;
        parts.push(String::from_str(name));
        assert(parts_view(parts@) =~= parts_view(before).push(name@));
        AppPath { parts }
    }

    /// The path without its last component; `None` for a bare root.
    pub fn parent(&self) -> (r: Option<AppPath>)
        ensures
            self@.len() >= 2 ==> (r matches Some(p) && p@ == self@.drop_last()),
            self@.len() < 2 ==> r is None,
    {
        let n = self.parts.len();
        if n < 2 {
            return None;
        }
        let mut parts: Vec<String> = Vec::new();
        let mut i: usize = 0;
        while i < n - 1
            invariant
                n == self.parts@.len(),
                n >= 2,
                i <= n - 1,
                parts_view(parts@) == parts_view(self.parts@.subrange(0, i as int)),
            decreases n - 1 - i,
        {
            parts.push(self.parts[i].clone());
            assert(parts_view(self.parts@.subrange(0, i + 1)) =~= parts_view(self.parts@.subrange(0, i as int)).push(self.parts@[i as int]@));
            assert(parts_view(parts@) =~= parts_view(self.parts@.subrange(0, i as int)).push(self.parts@[i as int]@));
            i = i + 1;
        }
        assert(parts_view(self.parts@.subrange(0, n - 1)) =~= self@.drop_last());
        Some(AppPath { parts })
    }

    /// Whether the two paths have the same components.
    pub fn same_path(&self, other: &AppPath) -> (r: bool)
        ensures
            r == (self@ == other@),
    {
        let n = self.parts.len();
        if n != other.parts.len() {
            assert(self@.len() != other@.len());
            return false;
        }
        let mut i: usize = 0;
        while i < n
            invariant
                n == self.parts@.len(),
                n == other.parts@.len(),
                i <= n,
                forall|j: int| 0 <= j < i ==> self@[j] == other@[j],
            decreases n - i,
        {
            if self.parts[i] != other.parts[i] {
                assert(self@[i as int] != other@[i as int]);
                return false;
            }
            i = i + 1;
        }
        assert(self@ =~= other@);
        true
    }

    /// The display string of the path on `platform`.
    pub fn display(&self, platform: Platform) -> (s: String)
        ensures
            s@ == render(self@, platform),
    {
        let n = self.parts.len();
        let mut s = String::new();
        let mut i: usize = 0;
        assert(self@.subrange(0, 0) =~= Seq::<Seq<char>>::empty());
        while i < n
            invariant
                n == self.parts@.len(),
                n == self@.len(),
                i <= n,
                s@ == render(self@.subrange(0, i as int), platform),
            decreases n - i,
        {
            let part: &str = self.parts[i].as_str();
            let len = s.unicode_len();
            if len == 0 {
                s.append(part);
            } else {
                let last = s.get_char(len - 1);
                let sep_ends = last == '/' || (platform == Platform::Windows && last == '\\');
                if !sep_ends {
                    let sep = if platform == Platform::Windows { '\\' } else { '/' };
                    push_char(&mut s, sep);
                }
                s.append(part);
            }
            assert(self@.subrange(0, i + 1).drop_last() =~= self@.subrange(0, i as int));
            assert(self@.subrange(0, i + 1).last() == self@[i as int]);
            i = i + 1;
        }
        assert(self@.subrange(0, n as int) =~= self@);
        s
    }
}

} // verus!
