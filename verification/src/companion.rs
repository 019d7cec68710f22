//! Work Room companion state: the browser pane's state and URL rules, the
//! IDE pane's folder and file list, and the device a write is attributed to.

use crate::oauth::{parse_url, url_parse};
use crate::sort::SortKey;
use crate::text::{concat, is_trim_of, opt_view, owned, starts_with, str_eq, trim};
use vstd::prelude::*;
use vstd::string::*;

verus! {

/// The browser pane: the page shown and the history.
#[derive(Debug, Clone)]
pub struct BrowserState {
    pub url: String,
    pub history: Vec<String>,
    pub history_index: i32,
}

impl Default for BrowserState {
    /// The example page, alone in the history.
    fn default() -> (r: BrowserState)
        ensures
            r.url@ == "https://example.com"@,
            r.history@.len() == 1,
            r.history@[0]@ == "https://example.com"@,
            r.history_index == 0,
    {
        BrowserState { url: owned("https://example.com"), history: vec![owned("https://example.com")], history_index: 0 }
    }
}

/// The IDE pane: the folder granted and the file open.
#[derive(Debug, Clone)]
pub struct IdeState {
    pub root_path: Option<String>,
    pub open_file: Option<String>,
}

impl Default for IdeState {
    /// No folder and no file.
    fn default() -> (r: IdeState)
        ensures
            r.root_path is None,
            r.open_file is None,
    {
        IdeState { root_path: None, open_file: None }
    }
}

/// An entry of the IDE file list: its name, its path under the folder (with
/// `/` separators), and whether it is a folder.
#[derive(Debug, Clone)]
pub struct IdeFileEntry {
    pub name: String,
    pub path: String,
    pub is_dir: bool,
}

/// The plain values of an `IdeFileEntry`.
pub struct IdeFileEntryView {
    pub name: Seq<char>,
    pub path: Seq<char>,
    pub is_dir: bool,
}

impl View for IdeFileEntry {
    type V = IdeFileEntryView;

    open spec fn view(&self) -> IdeFileEntryView {
        IdeFileEntryView { name: self.name@, path: self.path@, is_dir: self.is_dir }
    }
}

/// Whether `a` comes no later than `b` in the order of `str` (character by
/// character, by code point, a prefix first).
pub open spec fn lex_le(a: Seq<char>, b: Seq<char>) -> bool
    decreases a.len(),
{
    if a.len() == 0 {
        true
    } else if b.len() == 0 {
        false
    } else if (a[0] as u32) < (b[0] as u32) {
        true
    } else if (a[0] as u32) > (b[0] as u32) {
        false
    } else {
        lex_le(a.drop_first(), b.drop_first())
    }
}

/// Any two strings are ordered one way or the other.
pub proof fn lemma_lex_le_total(a: Seq<char>, b: Seq<char>)
    ensures
        lex_le(a, b) || lex_le(b, a),
    decreases a.len(),
{
    if a.len() > 0 && b.len() > 0 && (a[0] as u32) == (b[0] as u32) {
        lemma_lex_le_total(a.drop_first(), b.drop_first());
    }
}

/// The order of strings is transitive.
pub proof fn lemma_lex_le_trans(a: Seq<char>, b: Seq<char>, c: Seq<char>)
    requires
        lex_le(a, b),
        lex_le(b, c),
    ensures
        lex_le(a, c),
    decreases a.len(),
{
    if a.len() > 0 && b.len() > 0 && c.len() > 0 && (a[0] as u32) == (b[0] as u32) && (b[0] as u32) == (c[0] as u32) {
        lemma_lex_le_trans(a.drop_first(), b.drop_first(), c.drop_first());
    }
}

/// Whether `a` comes no later than `b` in the order of `str`.
pub fn str_le(a: &str, b: &str) -> (r: bool)
    ensures
        r == lex_le(a@, b@),
{
    let n: usize = a.unicode_len();
    let m: usize = b.unicode_len();
    let mut i: usize = 0;
    assert(a@.skip(0) =~= a@);
    assert(b@.skip(0) =~= b@);
    while i < n && i < m
        invariant
            n == a@.len(),
            m == b@.len(),
            i <= n,
            i <= m,
            lex_le(a@, b@) == lex_le(a@.skip(i as int), b@.skip(i as int)),
        decreases n - i,
    {
        let x = a.get_char(i) as u32;
        let y = b.get_char(i) as u32;
        assert(a@.skip(i as int)[0] == a@[i as int]);
        assert(b@.skip(i as int)[0] == b@[i as int]);
        if x < y {
            return true;
        }
        if x > y {
            return false;
        }
        assert(a@.skip(i as int).drop_first() =~= a@.skip(i + 1));
        assert(b@.skip(i as int).drop_first() =~= b@.skip(i + 1));
        i = i + 1;
    }
    i == n
}

impl SortKey for IdeFileEntry {
    /// Folders first; within each, by path in the order of `str`.
    open spec fn key_le(a: IdeFileEntryView, b: IdeFileEntryView) -> bool {
        if a.is_dir && !b.is_dir {
            true
        } else if !a.is_dir && b.is_dir {
            false
        } else {
            lex_le(a.path, b.path)
        }
    }

    proof fn key_le_total(a: IdeFileEntryView, b: IdeFileEntryView) {
        lemma_lex_le_total(a.path, b.path);
    }

    proof fn key_le_trans(a: IdeFileEntryView, b: IdeFileEntryView, c: IdeFileEntryView) {
        if a.is_dir == b.is_dir && b.is_dir == c.is_dir {
            lemma_lex_le_trans(a.path, b.path, c.path);
        }
    }

    fn le(&self, other: &Self) -> (r: bool) {
        if self.is_dir && !other.is_dir {
            true
        } else if !self.is_dir && other.is_dir {
            false
        } else {
            str_le(self.path.as_str(), other.path.as_str())
        }
    }
}

/// The IDE file list in display order: folders first, then by path.
pub fn sort_ide_entries(entries: Vec<IdeFileEntry>) -> (r: Vec<IdeFileEntry>)
    ensures
        crate::sort::views_of(r@) == crate::sort::sorted_by::<IdeFileEntry>(crate::sort::views_of(entries@)),
{
    crate::sort::stable_sort(entries)
}

/// Whether a file name is hidden (starts with `.`); hidden entries are left
/// out of the file list.
pub fn is_hidden_name(name: &str) -> (r: bool)
    ensures
        r == (name@.len() > 0 && name@[0] == '.'),
{
    if name.unicode_len() == 0 {
        return false;
    }
    name.get_char(0) == '.'
}

/// A path with each `\` turned into `/`.
pub open spec fn slashes(p: Seq<char>) -> Seq<char> {
    p.map_values(|c: char| if c == '\\' { '/' } else { c })
}

/// A relative path with `/` separators.
pub fn portable_path(rel: &str) -> (r: String)
    ensures
        r@ == slashes(rel@),
{
    let n: usize = rel.unicode_len();
    let mut out = owned("");
    proof {
        reveal_strlit("");
    }
    let mut i: usize = 0;
    while i < n
        invariant
            n == rel@.len(),
            i <= n,
            out@ == slashes(rel@.take(i as int)),
        decreases n - i,
    {
        let c = rel.get_char(i);
        let piece: &str = if c == '\\' { "/" } else { rel.substring_char(i, i + 1) };
        proof {
            reveal_strlit("/");
            assert(piece@ == seq![if c == '\\' { '/' } else { c }]);
        }
        out.append(piece);
        assert(out@ =~= slashes(rel@.take(i + 1)));
        i = i + 1;
    }
    assert(rel@.take(n as int) =~= rel@);
    out
}

/// Whether the components of `target` begin with those of `root`.
pub open spec fn components_within(root: Seq<String>, target: Seq<String>) -> bool {
    root.len() <= target.len() && forall|i: int| 0 <= i < root.len() ==> root[i]@ == target[i]@
}

/// Whether the components of `target` begin with those of `root`
/// (`Path::starts_with`).
pub fn is_within_root(root: &Vec<String>, target: &Vec<String>) -> (r: bool)
    ensures
        r == components_within(root@, target@),
{
    if root.len() > target.len() {
        return false;
    }
    let mut i: usize = 0;
    while i < root.len()
        invariant
            root@.len() <= target@.len(),
            i <= root@.len(),
            forall|j: int| 0 <= j < i ==> root@[j]@ == target@[j]@,
        decreases root.len() - i,
    {
        if !str_eq(root[i].as_str(), target[i].as_str()) {
            return false;
        }
        i = i + 1;
    }
    true
}

/// Keeps a path that lies under the granted folder, both given by their
/// components once links are resolved; any other path is refused with
/// `Path is outside the granted folder`.
pub fn validate_path_under_root(root: &Vec<String>, target: Vec<String>) -> (r: Result<Vec<String>, String>)
    ensures
        match r {
            Ok(t) => t@ == target@ && components_within(root@, target@),
            Err(m) => m@ == "Path is outside the granted folder"@ && !components_within(root@, target@),
        },
{
    if !is_within_root(root, &target) {
        return Err(owned("Path is outside the granted folder"));
    }
    Ok(target)
}

/// Whether some component of a path is `..`; such paths are not written.
pub fn has_parent_component(components: &Vec<String>) -> (r: bool)
    ensures
        r == exists|i: int| 0 <= i < components@.len() && components@[i]@ == ".."@,
{
    let mut i: usize = 0;
    while i < components.len()
        invariant
            i <= components@.len(),
            forall|j: int| 0 <= j < i ==> components@[j]@ != ".."@,
        decreases components.len() - i,
    {
        if str_eq(components[i].as_str(), "..") {
            assert(components@[i as int]@ == ".."@);
            return true;
        }
        i = i + 1;
    }
    false
}

/// The device a local write is attributed to: the registered cloud device,
/// else `local-device`.
pub fn device_or_local(cloud_device_id: Option<String>) -> (r: String)
    ensures
        r@ == match opt_view(cloud_device_id) {
            Some(d) => d,
            None => "local-device"@,
        },
{
    match cloud_device_id {
        Some(d) => d,
        None => owned("local-device"),
    }
}

/// The URL the browser pane goes to for what the user typed: trimmed, given
/// `https://` when it has no http(s) scheme, then parsed; refused when empty,
/// unparsable, or of another scheme.
pub open spec fn spec_normalize_http_url(trimmed: Seq<char>) -> Result<Seq<char>, Seq<char>> {
    if trimmed.len() == 0 {
        Err("URL is required"@)
    } else {
        let with_scheme = if (7 <= trimmed.len() && trimmed.subrange(0, 7) == "http://"@)
            || (8 <= trimmed.len() && trimmed.subrange(0, 8) == "https://"@) {
            trimmed
        } else {
            "https://"@ + trimmed
        };
        match url_parse(with_scheme) {
            Err(m) => Err(m),
            Ok(u) => if u.scheme != "http"@ && u.scheme != "https"@ {
                Err("Only http and https URLs are allowed"@)
            } else {
                Ok(u.serialized)
            },
        }
    }
}

/// The URL the browser pane goes to (see `spec_normalize_http_url`).
pub fn normalize_http_url(raw: &str) -> (r: Result<String, String>)
    ensures
        exists|t: Seq<char>| #[trigger] is_trim_of(t, raw@) && match (r, spec_normalize_http_url(t)) {
            (Ok(a), Ok(b)) => a@ == b,
            (Err(a), Err(b)) => a@ == b,
            _ => false,
        },
{
    let trimmed = trim(raw);
    proof {
        reveal_strlit("http://");
        reveal_strlit("https://");
    }
    if trimmed.as_str().unicode_len() == 0 {
        return Err(owned("URL is required"));
    }
    let with_scheme = if starts_with(trimmed.as_str(), "http://") || starts_with(trimmed.as_str(), "https://") {
        trimmed.clone()
    } else {
        concat("https://", trimmed.as_str())
    };
    let parsed = match parse_url(with_scheme.as_str()) {
        Ok(u) => u,
        Err(m) => return Err(m),
    };
    if !str_eq(parsed.scheme.as_str(), "http") && !str_eq(parsed.scheme.as_str(), "https") {
        return Err(owned("Only http and https URLs are allowed"));
    }
    Ok(parsed.serialized)
}

} // verus!
