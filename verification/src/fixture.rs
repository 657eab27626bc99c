//! Fixture manifests: what a fixture tree has to hold, and whether a tree
//! holds it.

use crate::paths::{join_path, joined_path, path_fault, PathError, validate_relative_path};
use crate::text::{
    chars_of, decimal_digits, join2, push_unsigned, same, string_of, to_vec, trim, trimmed, views,
};
use vstd::prelude::*;

verus! {

/// Fixture manifest format (authoritative metadata for fixture contents).
#[derive(Debug, Clone)]
pub struct FixtureManifest {
    pub version: u32,
    pub description: String,
    pub entries: Vec<FixtureEntry>,
}

/// Catalog entry describing an available fixture.
#[derive(Debug, Clone)]
pub struct FixtureCatalogEntry {
    pub id: String,
    pub description: String,
}

/// A single fixture entry describing a file or directory.
#[derive(Debug, Clone)]
pub struct FixtureEntry {
    pub path: String,
    pub entry_type: String,
    pub mode: String,
    pub size: Option<u64>,
    pub sha256: Option<String>,
    pub mtime: i64,
}

/// Structured errors produced while preparing fixtures.
#[derive(Debug, Clone)]
pub struct FixtureError {
    pub message: String,
    pub details: Vec<String>,
    pub is_missing: bool,
}

#[derive(Debug, Clone, Copy, PartialEq, Eq, Structural)]
pub enum EntryKind {
    File,
    Dir,
}

/// The manifest version that is understood.
pub const MANIFEST_VERSION: u32 = 1;

/// The permission bits of a mode.
pub const MODE_BITS: u32 = 0o7777;

pub open spec fn is_octal_digit(c: char) -> bool {
    '0' <= c && c <= '7'
}

/// The number that the first `n` octal digits of `digits` write.
pub open spec fn octal_upto(digits: Seq<char>, n: int) -> nat
    decreases n,
{
    if n <= 0 {
        0
    } else {
        (octal_upto(digits, n - 1) * 8 + (digits[n - 1] as u32 - '0' as u32)) as nat
    }
}

/// A mode without its optional `+` sign.
pub open spec fn unsigned_part(value: Seq<char>) -> Seq<char> {
    if value.len() > 0 && value[0] == '+' {
        value.skip(1)
    } else {
        value
    }
}

/// The mode that an octal text writes: digits `0` to `7`, at least one,
/// after an optional `+`, and a number that fits in 32 bits.
pub open spec fn mode_of(value: Seq<char>) -> Option<u32> {
    let digits = unsigned_part(value);
    if digits.len() > 0 && (forall|i: int| 0 <= i < digits.len() ==> is_octal_digit(#[trigger] digits[i]))
        && octal_upto(digits, digits.len() as int) <= u32::MAX {
        Some(octal_upto(digits, digits.len() as int) as u32)
    } else {
        None
    }
}

proof fn lemma_octal_grows(digits: Seq<char>, n: int, m: int)
    requires
        0 <= n <= m <= digits.len(),
        forall|i: int| 0 <= i < digits.len() ==> is_octal_digit(#[trigger] digits[i]),
    ensures
        octal_upto(digits, n) <= octal_upto(digits, m),
    decreases m - n,
{
    if n < m {
        lemma_octal_grows(digits, n, m - 1);
    }
}

/// Reads a mode written in octal.
pub fn parse_mode(value: &str) -> (mode: Option<u32>)
    ensures
        mode == mode_of(value@),
{
    let chars = chars_of(value);
    let all = chars.as_slice();
    let digits = if all.len() > 0 && all[0] == '+' {
        &all[1..all.len()]
    } else {
        all
    };
    assert(digits@ == unsigned_part(value@));
    if digits.len() == 0 {
        return None;
    }
    let mut acc: u32 = 0;
    let mut i: usize = 0;
    while i < digits.len()
        invariant
            i <= digits.len(),
            digits@ == unsigned_part(value@),
            forall|k: int| 0 <= k < i ==> is_octal_digit(#[trigger] digits@[k]),
            acc == octal_upto(digits@, i as int),
        decreases digits.len() - i,
    {
        let c = digits[i];
        if !('0' <= c && c <= '7') {
            assert(!is_octal_digit(digits@[i as int]));
            return None;
        }
        let d: u32 = c as u32 - '0' as u32;
        if acc > (u32::MAX - d) / 8 {
            proof {
                assert(octal_upto(digits@, i + 1) == acc * 8 + d);
                if forall|k: int| 0 <= k < digits.len() ==> is_octal_digit(#[trigger] digits@[k]) {
                    lemma_octal_grows(digits@, i + 1, digits.len() as int);
                }
            }
            return None;
        }
        acc = acc * 8 + d;
        i = i + 1;
    }
    Some(acc)
}

/// Why a manifest is not accepted.
#[derive(Debug, Clone)]
pub enum ManifestError {
    UnsupportedVersion(u32),
    InvalidPath(PathError),
    DuplicateEntry(String),
    SymlinkUnsupported,
    UnsupportedType(String),
    InvalidMode(String),
    NegativeMtime,
    FileMissingFields,
    DirHasFields,
}

pub ghost enum ManifestFault {
    UnsupportedVersion(u32),
    InvalidPath(PathError),
    DuplicateEntry(Seq<char>),
    SymlinkUnsupported,
    UnsupportedType(Seq<char>),
    InvalidMode(Seq<char>),
    NegativeMtime,
    FileMissingFields,
    DirHasFields,
}

impl View for ManifestError {
    type V = ManifestFault;

    open spec fn view(&self) -> ManifestFault {
        match self {
            ManifestError::UnsupportedVersion(v) => ManifestFault::UnsupportedVersion(*v),
            ManifestError::InvalidPath(e) => ManifestFault::InvalidPath(*e),
            ManifestError::DuplicateEntry(p) => ManifestFault::DuplicateEntry(p@),
            ManifestError::SymlinkUnsupported => ManifestFault::SymlinkUnsupported,
            ManifestError::UnsupportedType(t) => ManifestFault::UnsupportedType(t@),
            ManifestError::InvalidMode(m) => ManifestFault::InvalidMode(m@),
            ManifestError::NegativeMtime => ManifestFault::NegativeMtime,
            ManifestError::FileMissingFields => ManifestFault::FileMissingFields,
            ManifestError::DirHasFields => ManifestFault::DirHasFields,
        }
    }
}

/// The kind that an entry type names.
pub open spec fn kind_of(entry_type: Seq<char>) -> Option<EntryKind> {
    if entry_type == "file"@ {
        Some(EntryKind::File)
    } else if entry_type == "dir"@ {
        Some(EntryKind::Dir)
    } else {
        None
    }
}

fn entry_kind(entry_type: &str) -> (kind: Option<EntryKind>)
    ensures
        kind == kind_of(entry_type@),
{
    let chars = chars_of(entry_type);
    let file = chars_of("file");
    let dir = chars_of("dir");
    if same(chars.as_slice(), file.as_slice()) {
        Some(EntryKind::File)
    } else if same(chars.as_slice(), dir.as_slice()) {
        Some(EntryKind::Dir)
    } else {
        None
    }
}

/// Some entry before `i` has the path of entry `i`.
pub open spec fn listed_before(manifest: FixtureManifest, i: int) -> bool {
    exists|j: int|
        0 <= j < i && (#[trigger] manifest.entries@[j]).path@ == manifest.entries@[i].path@
}

/// The first rule that entry `i` of the manifest breaks: a clean relative
/// path that no earlier entry has, the type `file` or `dir`, an octal mode,
/// a modification time that is not negative, and size and hash for files
/// and for files only.
pub open spec fn entry_fault(manifest: FixtureManifest, i: int) -> Option<ManifestFault> {
    let entry = manifest.entries@[i];
    if path_fault(entry.path@) is Some {
        Some(ManifestFault::InvalidPath(path_fault(entry.path@)->0))
    } else if listed_before(manifest, i) {
        Some(ManifestFault::DuplicateEntry(entry.path@))
    } else if entry.entry_type@ == "symlink"@ {
        Some(ManifestFault::SymlinkUnsupported)
    } else if kind_of(entry.entry_type@) is None {
        Some(ManifestFault::UnsupportedType(entry.entry_type@))
    } else if mode_of(entry.mode@) is None {
        Some(ManifestFault::InvalidMode(entry.mode@))
    } else if entry.mtime < 0 {
        Some(ManifestFault::NegativeMtime)
    } else if kind_of(entry.entry_type@) == Some(EntryKind::File) {
        if entry.size is None || entry.sha256 is None {
            Some(ManifestFault::FileMissingFields)
        } else {
            None
        }
    } else if entry.size is Some || entry.sha256 is Some {
        Some(ManifestFault::DirHasFields)
    } else {
        None
    }
}

/// The fault of the first faulty entry from `i` on.
pub open spec fn entries_fault(manifest: FixtureManifest, i: int) -> Option<ManifestFault>
    decreases manifest.entries@.len() - i,
{
    if 0 <= i < manifest.entries@.len() {
        match entry_fault(manifest, i) {
            Some(fault) => Some(fault),
            None => entries_fault(manifest, i + 1),
        }
    } else {
        None
    }
}

/// The first rule that the manifest breaks.
pub open spec fn manifest_fault(manifest: FixtureManifest) -> Option<ManifestFault> {
    if manifest.version != MANIFEST_VERSION {
        Some(ManifestFault::UnsupportedVersion(manifest.version))
    } else {
        entries_fault(manifest, 0)
    }
}

fn path_listed(manifest: &FixtureManifest, upto: usize, path: &String) -> (b: bool)
    requires
        upto <= manifest.entries.len(),
    ensures
        b == exists|j: int| 0 <= j < upto && (#[trigger] manifest.entries@[j]).path@ == path@,
{
    let mut j: usize = 0;
    while j < upto
        invariant
            j <= upto <= manifest.entries.len(),
            forall|k: int| 0 <= k < j ==> (#[trigger] manifest.entries@[k]).path@ != path@,
        decreases upto - j,
    {
        if manifest.entries[j].path == *path {
            return true;
        }
        j = j + 1;
    }
    false
}

fn check_entry(manifest: &FixtureManifest, i: usize) -> (r: Result<(), ManifestError>)
    requires
        i < manifest.entries.len(),
    ensures
        match r {
            Ok(_) => entry_fault(*manifest, i as int) is None,
            Err(e) => entry_fault(*manifest, i as int) == Some(e@),
        },
{
    let entry = &manifest.entries[i];
    if let Err(e) = validate_relative_path(entry.path.as_str()) {
        return Err(ManifestError::InvalidPath(e));
    }
    if path_listed(manifest, i, &entry.path) {
        return Err(ManifestError::DuplicateEntry(entry.path.clone()));
    }
    let type_chars = chars_of(entry.entry_type.as_str());
    let symlink = chars_of("symlink");
    if same(type_chars.as_slice(), symlink.as_slice()) {
        return Err(ManifestError::SymlinkUnsupported);
    }
    let kind = match entry_kind(entry.entry_type.as_str()) {
        Some(kind) => kind,
        None => {
            return Err(ManifestError::UnsupportedType(entry.entry_type.clone()));
        },
    };
    if parse_mode(entry.mode.as_str()).is_none() {
        return Err(ManifestError::InvalidMode(entry.mode.clone()));
    }
    if entry.mtime < 0 {
        return Err(ManifestError::NegativeMtime);
    }
    match kind {
        EntryKind::File => {
            if entry.size.is_none() || entry.sha256.is_none() {
                return Err(ManifestError::FileMissingFields);
            }
        },
        EntryKind::Dir => {
            if entry.size.is_some() || entry.sha256.is_some() {
                return Err(ManifestError::DirHasFields);
            }
        },
    }
    Ok(())
}

/// Holds a manifest against the rules of the format.
pub fn validate_manifest(manifest: &FixtureManifest) -> (r: Result<(), ManifestError>)
    ensures
        match r {
            Ok(_) => manifest_fault(*manifest) is None,
            Err(e) => manifest_fault(*manifest) == Some(e@),
        },
{
    if manifest.version != MANIFEST_VERSION {
        return Err(ManifestError::UnsupportedVersion(manifest.version));
    }
    let mut i: usize = 0;
    while i < manifest.entries.len()
        invariant
            i <= manifest.entries.len(),
            manifest.version == MANIFEST_VERSION,
            entries_fault(*manifest, i as int) == entries_fault(*manifest, 0),
        decreases manifest.entries.len() - i,
    {
        match check_entry(manifest, i) {
            Ok(_) => {},
            Err(e) => {
                return Err(e);
            },
        }
        i = i + 1;
    }
    Ok(())
}

/// The kinds of the first `n` entries, where each names one.
pub open spec fn kinds_upto(manifest: FixtureManifest, n: int) -> Option<Seq<EntryKind>>
    decreases n,
{
    if n <= 0 {
        Some(Seq::<EntryKind>::empty())
    } else {
        match (kinds_upto(manifest, n - 1), kind_of(manifest.entries@[n - 1].entry_type@)) {
            (Some(kinds), Some(kind)) => Some(kinds.push(kind)),
            _ => None,
        }
    }
}

/// The kinds of the entries of a manifest, entry by entry; none where some
/// entry is neither file nor directory.
pub fn manifest_entries(manifest: &FixtureManifest) -> (kinds: Option<Vec<EntryKind>>)
    ensures
        match kinds {
            Some(k) => kinds_upto(*manifest, manifest.entries.len() as int) == Some(k@),
            None => kinds_upto(*manifest, manifest.entries.len() as int) is None,
        },
{
    let mut kinds: Vec<EntryKind> = Vec::new();
    let mut i: usize = 0;
    while i < manifest.entries.len()
        invariant
            i <= manifest.entries.len(),
            kinds_upto(*manifest, i as int) == Some(kinds@),
        decreases manifest.entries.len() - i,
    {
        match entry_kind(manifest.entries[i].entry_type.as_str()) {
            Some(kind) => {
                kinds.push(kind);
            },
            None => {
                proof {
                    lemma_kinds_none(*manifest, i + 1, manifest.entries.len() as int);
                }
                return None;
            },
        }
        i = i + 1;
    }
    Some(kinds)
}

proof fn lemma_kinds_none(manifest: FixtureManifest, n: int, m: int)
    requires
        0 <= n <= m,
        kinds_upto(manifest, n) is None,
    ensures
        kinds_upto(manifest, m) is None,
    decreases m - n,
{
    if n < m {
        lemma_kinds_none(manifest, n, m - 1);
    }
}

/// Build a fixture directory from the fixture root and a fixture ID.
pub fn fixture_root(root: &str, fixture_id: &str) -> (r: Result<String, PathError>)
    ensures
        match r {
            Ok(path) => path_fault(fixture_id@) is None && path@ == joined_path(root@, fixture_id@),
            Err(e) => path_fault(fixture_id@) == Some(e),
        },
{
    if let Err(e) = validate_relative_path(fixture_id) {
        return Err(e);
    }
    Ok(join_path(root, fixture_id))
}

/// The components of `path[start..]`, where the component being read began
/// at `start` and `i` is the next character to look at: the pieces between
/// `/`, without the empty ones and without `.` other than a leading one.
pub open spec fn components_from(path: Seq<char>, start: int, i: int) -> Seq<Seq<char>>
    decreases path.len() - i,
{
    if i < 0 || i >= path.len() {
        piece(path, start, path.len() as int)
    } else if path[i] == '/' {
        piece(path, start, i) + components_from(path, i + 1, i + 1)
    } else {
        components_from(path, start, i + 1)
    }
}

/// The piece `path[start..end]` as a list of one component or none.
pub open spec fn piece(path: Seq<char>, start: int, end: int) -> Seq<Seq<char>> {
    let text = path.subrange(start, end);
    if text.len() == 0 || (text == seq!['.'] && start > 0) {
        seq![]
    } else {
        seq![text]
    }
}

/// The components of a relative path.
pub open spec fn components(path: Seq<char>) -> Seq<Seq<char>> {
    components_from(path, 0, 0)
}

/// Two paths name the same place: they have the same components.
pub open spec fn same_place(a: Seq<char>, b: Seq<char>) -> bool {
    components(a) == components(b)
}

fn push_piece(path: &[char], start: usize, end: usize, out: &mut Vec<Vec<char>>)
    requires
        start <= end <= path.len(),
    ensures
        views(final(out)@) == views(old(out)@) + piece(path@, start as int, end as int),
{
    let text = &path[start..end];
    if text.len() == 0 || (text.len() == 1 && text[0] == '.' && start > 0) {
        assert(text.len() == 1 ==> text@ =~= seq![text@[0]]);
        assert(views(out@) =~= views(old(out)@) + piece(path@, start as int, end as int));
        return ;
    }
    assert(text@ != seq!['.'] || start == 0) by {
        if text@ == seq!['.'] {
            assert(text@.len() == 1 && text@[0] == '.');
        }
    }
    let copy = to_vec(text);
    proof {
        crate::text::lemma_views_push(out@, copy);
    }
    out.push(copy);
    assert(views(out@) =~= views(old(out)@) + piece(path@, start as int, end as int));
}

/// Splits a relative path into its components.
pub fn path_components(path: &str) -> (parts: Vec<Vec<char>>)
    ensures
        views(parts@) == components(path@),
{
    let chars = chars_of(path);
    let text = chars.as_slice();
    let mut parts: Vec<Vec<char>> = Vec::new();
    let mut start: usize = 0;
    let mut i: usize = 0;
    assert(views(parts@) =~= seq![]);
    while i < text.len()
        invariant
            start <= i <= text.len(),
            text@ == path@,
            views(parts@) + components_from(text@, start as int, i as int) =~= components(text@),
        decreases text.len() - i,
    {
        if text[i] == '/' {
            push_piece(text, start, i, &mut parts);
            start = i + 1;
        }
        i = i + 1;
    }
    push_piece(text, start, text.len(), &mut parts);
    parts
}

/// Whether two paths name the same place.
pub fn same_path(a: &str, b: &str) -> (r: bool)
    ensures
        r == same_place(a@, b@),
{
    let left = path_components(a);
    let right = path_components(b);
    if left.len() != right.len() {
        assert(views(left@).len() != views(right@).len());
        return false;
    }
    let mut i: usize = 0;
    while i < left.len()
        invariant
            i <= left.len(),
            left.len() == right.len(),
            views(left@) == components(a@),
            views(right@) == components(b@),
            forall|k: int| 0 <= k < i ==> views(left@)[k] == views(right@)[k],
        decreases left.len() - i,
    {
        assert(views(left@)[i as int] == left@[i as int]@);
        assert(views(right@)[i as int] == right@[i as int]@);
        if !same(left[i].as_slice(), right[i].as_slice()) {
            return false;
        }
        i = i + 1;
    }
    assert(views(left@) =~= views(right@));
    true
}

/// What a fixture tree holds at one path.
#[derive(Debug, Clone)]
pub struct TreeEntry {
    /// The path below the root of the tree.
    pub path: String,
    pub kind: EntryKind,
    /// The size of a file in bytes.
    pub size: u64,
    /// The SHA-256 of a file in lower-case hexadecimal.
    pub sha256: String,
    /// The mode of the entry.
    pub mode: u32,
    /// The modification time in seconds.
    pub mtime: i64,
}

/// Why a tree does not hold what its manifest says.
#[derive(Debug, Clone)]
pub enum TreeError {
    UnsupportedType,
    Missing(String),
    TypeMismatch(String),
    Unexpected(String),
    SizeMismatch(String),
    HashMismatch(String),
    InvalidMode(String),
    ModeMismatch(String),
    MtimeMismatch(String),
}

pub ghost enum TreeFault {
    UnsupportedType,
    Missing(Seq<char>),
    TypeMismatch(Seq<char>),
    Unexpected(Seq<char>),
    SizeMismatch(Seq<char>),
    HashMismatch(Seq<char>),
    InvalidMode(Seq<char>),
    ModeMismatch(Seq<char>),
    MtimeMismatch(Seq<char>),
}

impl View for TreeError {
    type V = TreeFault;

    open spec fn view(&self) -> TreeFault {
        match self {
            TreeError::UnsupportedType => TreeFault::UnsupportedType,
            TreeError::Missing(p) => TreeFault::Missing(p@),
            TreeError::TypeMismatch(p) => TreeFault::TypeMismatch(p@),
            TreeError::Unexpected(p) => TreeFault::Unexpected(p@),
            TreeError::SizeMismatch(p) => TreeFault::SizeMismatch(p@),
            TreeError::HashMismatch(p) => TreeFault::HashMismatch(p@),
            TreeError::InvalidMode(m) => TreeFault::InvalidMode(m@),
            TreeError::ModeMismatch(p) => TreeFault::ModeMismatch(p@),
            TreeError::MtimeMismatch(p) => TreeFault::MtimeMismatch(p@),
        }
    }
}

/// The last of the first `n` items of the tree that stands at `path`.
pub open spec fn found_upto(tree: Seq<TreeEntry>, path: Seq<char>, n: int) -> Option<int>
    decreases n,
{
    if n <= 0 {
        None
    } else if same_place(tree[n - 1].path@, path) {
        Some(n - 1)
    } else {
        found_upto(tree, path, n - 1)
    }
}

/// The item of the tree that stands at `path`.
pub open spec fn found_in(tree: Seq<TreeEntry>, path: Seq<char>) -> Option<int> {
    found_upto(tree, path, tree.len() as int)
}

/// Some entry of the manifest stands at `path`.
pub open spec fn is_expected(manifest: FixtureManifest, path: Seq<char>) -> bool {
    exists|j: int|
        0 <= j < manifest.entries@.len() && same_place(
            (#[trigger] manifest.entries@[j]).path@,
            path,
        )
}

/// What entry `i` of the manifest lacks in the tree: the entry itself, or
/// its kind.
pub open spec fn presence_fault(manifest: FixtureManifest, tree: Seq<TreeEntry>, i: int) -> Option<
    TreeFault,
> {
    let entry = manifest.entries@[i];
    match found_in(tree, entry.path@) {
        None => Some(TreeFault::Missing(entry.path@)),
        Some(k) => if Some(tree[k].kind) != kind_of(entry.entry_type@) {
            Some(TreeFault::TypeMismatch(entry.path@))
        } else {
            None
        },
    }
}

/// How the tree differs from entry `i` of the manifest in what it holds:
/// for a file its size and hash, and where metadata counts the permission
/// bits and the modification time of any entry.
pub open spec fn content_fault(
    manifest: FixtureManifest,
    tree: Seq<TreeEntry>,
    check_metadata: bool,
    i: int,
) -> Option<TreeFault> {
    let entry = manifest.entries@[i];
    let actual = tree[found_in(tree, entry.path@)->0];
    if entry.entry_type@ == "file"@ && entry.size is Some && entry.size->0 != actual.size {
        Some(TreeFault::SizeMismatch(entry.path@))
    } else if entry.entry_type@ == "file"@ && entry.sha256 is Some && entry.sha256->0@
        != actual.sha256@ {
        Some(TreeFault::HashMismatch(entry.path@))
    } else if !check_metadata {
        None
    } else if mode_of(entry.mode@) is None {
        Some(TreeFault::InvalidMode(entry.mode@))
    } else if actual.mode & MODE_BITS != mode_of(entry.mode@)->0 {
        Some(TreeFault::ModeMismatch(entry.path@))
    } else if actual.mtime != entry.mtime {
        Some(TreeFault::MtimeMismatch(entry.path@))
    } else {
        None
    }
}

/// The first presence fault from entry `i` on.
pub open spec fn presence_from(manifest: FixtureManifest, tree: Seq<TreeEntry>, i: int) -> Option<
    TreeFault,
>
    decreases manifest.entries@.len() - i,
{
    if 0 <= i < manifest.entries@.len() {
        match presence_fault(manifest, tree, i) {
            Some(f) => Some(f),
            None => presence_from(manifest, tree, i + 1),
        }
    } else {
        None
    }
}

/// The first item of the tree from `k` on that the manifest does not list.
pub open spec fn unexpected_from(manifest: FixtureManifest, tree: Seq<TreeEntry>, k: int) -> Option<
    TreeFault,
>
    decreases tree.len() - k,
{
    if 0 <= k < tree.len() {
        if !is_expected(manifest, tree[k].path@) {
            Some(TreeFault::Unexpected(tree[k].path@))
        } else {
            unexpected_from(manifest, tree, k + 1)
        }
    } else {
        None
    }
}

/// The first content fault from entry `i` on.
pub open spec fn content_from(
    manifest: FixtureManifest,
    tree: Seq<TreeEntry>,
    check_metadata: bool,
    i: int,
) -> Option<TreeFault>
    decreases manifest.entries@.len() - i,
{
    if 0 <= i < manifest.entries@.len() {
        match content_fault(manifest, tree, check_metadata, i) {
            Some(f) => Some(f),
            None => content_from(manifest, tree, check_metadata, i + 1),
        }
    } else {
        None
    }
}

/// How a tree differs from its manifest, entries taken in manifest order:
/// an entry that is neither file nor directory; then an entry that the
/// tree lacks or holds as the other kind; then an item of the tree that
/// the manifest does not list; then a file of another size or hash, and
/// where metadata counts an entry of another mode or modification time.
pub open spec fn tree_fault(manifest: FixtureManifest, tree: Seq<TreeEntry>, check_metadata: bool) -> Option<
    TreeFault,
> {
    if kinds_upto(manifest, manifest.entries@.len() as int) is None {
        Some(TreeFault::UnsupportedType)
    } else if presence_from(manifest, tree, 0) is Some {
        presence_from(manifest, tree, 0)
    } else if unexpected_from(manifest, tree, 0) is Some {
        unexpected_from(manifest, tree, 0)
    } else {
        content_from(manifest, tree, check_metadata, 0)
    }
}

fn find_in_tree(tree: &Vec<TreeEntry>, path: &str) -> (r: Option<usize>)
    ensures
        match r {
            Some(k) => k < tree.len() && found_in(tree@, path@) == Some(k as int),
            None => found_in(tree@, path@) is None,
        },
{
    let mut n: usize = tree.len();
    while n > 0
        invariant
            n <= tree.len(),
            found_upto(tree@, path@, n as int) == found_in(tree@, path@),
        decreases n,
    {
        if same_path(tree[n - 1].path.as_str(), path) {
            return Some(n - 1);
        }
        n = n - 1;
    }
    None
}

fn expected(manifest: &FixtureManifest, path: &str) -> (b: bool)
    ensures
        b == is_expected(*manifest, path@),
{
    let mut j: usize = 0;
    while j < manifest.entries.len()
        invariant
            j <= manifest.entries.len(),
            forall|k: int|
                0 <= k < j ==> !same_place((#[trigger] manifest.entries@[k]).path@, path@),
        decreases manifest.entries.len() - j,
    {
        if same_path(manifest.entries[j].path.as_str(), path) {
            return true;
        }
        j = j + 1;
    }
    false
}

fn check_presence(manifest: &FixtureManifest, tree: &Vec<TreeEntry>, i: usize) -> (r: Result<
    (),
    TreeError,
>)
    requires
        i < manifest.entries.len(),
    ensures
        match r {
            Ok(_) => presence_fault(*manifest, tree@, i as int) is None,
            Err(e) => presence_fault(*manifest, tree@, i as int) == Some(e@),
        },
{
    let entry = &manifest.entries[i];
    match find_in_tree(tree, entry.path.as_str()) {
        None => Err(TreeError::Missing(entry.path.clone())),
        Some(k) => {
            let kind = entry_kind(entry.entry_type.as_str());
            let same_kind = match kind {
                Some(EntryKind::File) => tree[k].kind == EntryKind::File,
                Some(EntryKind::Dir) => tree[k].kind == EntryKind::Dir,
                None => false,
            };
            if same_kind {
                Ok(())
            } else {
                Err(TreeError::TypeMismatch(entry.path.clone()))
            }
        },
    }
}

fn check_content(
    manifest: &FixtureManifest,
    tree: &Vec<TreeEntry>,
    check_metadata: bool,
    i: usize,
) -> (r: Result<(), TreeError>)
    requires
        i < manifest.entries.len(),
        found_in(tree@, manifest.entries@[i as int].path@) is Some,
    ensures
        match r {
            Ok(_) => content_fault(*manifest, tree@, check_metadata, i as int) is None,
            Err(e) => content_fault(*manifest, tree@, check_metadata, i as int) == Some(e@),
        },
{
    let entry = &manifest.entries[i];
    let k = match find_in_tree(tree, entry.path.as_str()) {
        Some(k) => k,
        None => {
            return Ok(());
        },
    };
    let actual = &tree[k];
    let type_chars = chars_of(entry.entry_type.as_str());
    let file = chars_of("file");
    if same(type_chars.as_slice(), file.as_slice()) {
        if let Some(size) = entry.size {
            if size != actual.size {
                return Err(TreeError::SizeMismatch(entry.path.clone()));
            }
        }
        if let Some(hash) = &entry.sha256 {
            if *hash != actual.sha256 {
                return Err(TreeError::HashMismatch(entry.path.clone()));
            }
        }
    }
    if !check_metadata {
        return Ok(());
    }
    let expected_mode = match parse_mode(entry.mode.as_str()) {
        Some(mode) => mode,
        None => {
            return Err(TreeError::InvalidMode(entry.mode.clone()));
        },
    };
    if actual.mode & MODE_BITS != expected_mode {
        return Err(TreeError::ModeMismatch(entry.path.clone()));
    }
    if actual.mtime != entry.mtime {
        return Err(TreeError::MtimeMismatch(entry.path.clone()));
    }
    Ok(())
}

proof fn lemma_presence_none(manifest: FixtureManifest, tree: Seq<TreeEntry>, i: int, k: int)
    requires
        0 <= i <= k < manifest.entries@.len(),
        presence_from(manifest, tree, i) is None,
    ensures
        presence_fault(manifest, tree, k) is None,
    decreases k - i,
{
    if i < k {
        lemma_presence_none(manifest, tree, i + 1, k);
    }
}

/// Holds a scanned tree against its manifest.
pub fn verify_fixture_tree(manifest: &FixtureManifest, tree: &Vec<TreeEntry>, check_metadata: bool) -> (r:
    Result<(), TreeError>)
    ensures
        match r {
            Ok(_) => tree_fault(*manifest, tree@, check_metadata) is None,
            Err(e) => tree_fault(*manifest, tree@, check_metadata) == Some(e@),
        },
{
    if manifest_entries(manifest).is_none() {
        return Err(TreeError::UnsupportedType);
    }
    let mut i: usize = 0;
    while i < manifest.entries.len()
        invariant
            i <= manifest.entries.len(),
            kinds_upto(*manifest, manifest.entries@.len() as int) is Some,
            presence_from(*manifest, tree@, i as int) == presence_from(*manifest, tree@, 0),
        decreases manifest.entries.len() - i,
    {
        match check_presence(manifest, tree, i) {
            Ok(_) => {},
            Err(e) => {
                return Err(e);
            },
        }
        i = i + 1;
    }
    let mut k: usize = 0;
    while k < tree.len()
        invariant
            k <= tree.len(),
            kinds_upto(*manifest, manifest.entries@.len() as int) is Some,
            presence_from(*manifest, tree@, 0) is None,
            unexpected_from(*manifest, tree@, k as int) == unexpected_from(*manifest, tree@, 0),
        decreases tree.len() - k,
    {
        if !expected(manifest, tree[k].path.as_str()) {
            return Err(TreeError::Unexpected(tree[k].path.clone()));
        }
        k = k + 1;
    }
    let mut j: usize = 0;
    while j < manifest.entries.len()
        invariant
            j <= manifest.entries.len(),
            kinds_upto(*manifest, manifest.entries@.len() as int) is Some,
            presence_from(*manifest, tree@, 0) is None,
            unexpected_from(*manifest, tree@, 0) is None,
            content_from(*manifest, tree@, check_metadata, j as int) == content_from(
                *manifest,
                tree@,
                check_metadata,
                0,
            ),
        decreases manifest.entries.len() - j,
    {
        proof {
            lemma_presence_none(*manifest, tree@, 0, j as int);
        }
        match check_content(manifest, tree, check_metadata, j) {
            Ok(_) => {},
            Err(e) => {
                return Err(e);
            },
        }
        j = j + 1;
    }
    Ok(())
}

/// What a walk of a fixture tree finds at one place.
#[derive(Debug, Clone, Copy, PartialEq, Eq, Structural)]
pub enum ScanError {
    /// A symbolic link.
    Symlink,
    /// Neither file nor directory.
    Unsupported,
}

/// The kind of a place in a fixture tree: a directory or a file; links and
/// anything else are refused.
pub open spec fn scanned_kind(is_symlink: bool, is_dir: bool, is_file: bool) -> Result<
    EntryKind,
    ScanError,
> {
    if is_symlink {
        Err(ScanError::Symlink)
    } else if is_dir {
        Ok(EntryKind::Dir)
    } else if is_file {
        Ok(EntryKind::File)
    } else {
        Err(ScanError::Unsupported)
    }
}

/// Classifies one place of a walk of a fixture tree.
pub fn scan_kind(is_symlink: bool, is_dir: bool, is_file: bool) -> (r: Result<EntryKind, ScanError>)
    ensures
        r == scanned_kind(is_symlink, is_dir, is_file),
{
    if is_symlink {
        Err(ScanError::Symlink)
    } else if is_dir {
        Ok(EntryKind::Dir)
    } else if is_file {
        Ok(EntryKind::File)
    } else {
        Err(ScanError::Unsupported)
    }
}

/// Whether what stands at the place of an entry is of the kind that the
/// entry names, before its mode and time are set: a `file` entry needs a
/// file, a `dir` entry a directory.
pub open spec fn fits_entry(entry_type: Seq<char>, is_file: bool, is_dir: bool) -> bool {
    !(entry_type == "file"@ && !is_file) && !(entry_type == "dir"@ && !is_dir)
}

/// Holds what stands at the place of an entry against its type.
pub fn check_applied_kind(entry: &FixtureEntry, is_file: bool, is_dir: bool) -> (r: Result<
    (),
    EntryKind,
>)
    ensures
        match r {
            Ok(_) => fits_entry(entry.entry_type@, is_file, is_dir),
            Err(kind) => !fits_entry(entry.entry_type@, is_file, is_dir) && kind_of(
                entry.entry_type@,
            ) == Some(kind),
        },
{
    proof {
        reveal_strlit("file");
        reveal_strlit("dir");
        assert("file"@.len() != "dir"@.len());
    }
    match entry_kind(entry.entry_type.as_str()) {
        Some(EntryKind::File) => if is_file {
            Ok(())
        } else {
            Err(EntryKind::File)
        },
        Some(EntryKind::Dir) => if is_dir {
            Ok(())
        } else {
            Err(EntryKind::Dir)
        },
        None => Ok(()),
    }
}

/// What the disk holds for a catalog entry.
#[derive(Debug, Clone, Copy, PartialEq, Eq, Structural)]
pub struct FixtureOnDisk {
    /// The fixture directory is there.
    pub is_dir: bool,
    /// Its manifest is a file.
    pub has_manifest: bool,
    /// Its `tree` is a directory.
    pub has_tree: bool,
}

/// Why a catalog entry is not accepted.
#[derive(Debug, Clone)]
pub enum CatalogError {
    InvalidId(PathError),
    MissingDescription(String),
    Duplicate(String),
    NotOnDisk(String),
    Incomplete(String),
}

pub ghost enum CatalogFault {
    InvalidId(PathError),
    MissingDescription(Seq<char>),
    Duplicate(Seq<char>),
    NotOnDisk(Seq<char>),
    Incomplete(Seq<char>),
}

impl View for CatalogError {
    type V = CatalogFault;

    open spec fn view(&self) -> CatalogFault {
        match self {
            CatalogError::InvalidId(e) => CatalogFault::InvalidId(*e),
            CatalogError::MissingDescription(id) => CatalogFault::MissingDescription(id@),
            CatalogError::Duplicate(id) => CatalogFault::Duplicate(id@),
            CatalogError::NotOnDisk(id) => CatalogFault::NotOnDisk(id@),
            CatalogError::Incomplete(id) => CatalogFault::Incomplete(id@),
        }
    }
}

/// The first rule that a catalog entry breaks, given the IDs seen before
/// it: a clean relative path as ID, a description, an ID not seen before,
/// and a directory on disk with its manifest and its tree.
pub open spec fn catalog_fault(
    id: Seq<char>,
    description: Seq<char>,
    seen: Seq<Seq<char>>,
    disk: FixtureOnDisk,
) -> Option<CatalogFault> {
    if path_fault(id) is Some {
        Some(CatalogFault::InvalidId(path_fault(id)->0))
    } else if trimmed(description).len() == 0 {
        Some(CatalogFault::MissingDescription(id))
    } else if seen.contains(id) {
        Some(CatalogFault::Duplicate(id))
    } else if !disk.is_dir {
        Some(CatalogFault::NotOnDisk(id))
    } else if !disk.has_manifest || !disk.has_tree {
        Some(CatalogFault::Incomplete(id))
    } else {
        None
    }
}

fn seen_before(seen: &Vec<String>, id: &String) -> (b: bool)
    ensures
        b == views(seen@).contains(id@),
{
    let mut i: usize = 0;
    while i < seen.len()
        invariant
            i <= seen.len(),
            forall|j: int| 0 <= j < i ==> views(seen@)[j] != id@,
        decreases seen.len() - i,
    {
        assert(views(seen@)[i as int] == seen@[i as int]@);
        if seen[i] == *id {
            return true;
        }
        i = i + 1;
    }
    false
}

/// Holds one entry of the fixture catalog against the IDs seen before it
/// and against what the disk holds for it.
pub fn check_catalog_entry(entry: &FixtureCatalogEntry, seen: &Vec<String>, disk: FixtureOnDisk) -> (r:
    Result<(), CatalogError>)
    ensures
        match r {
            Ok(_) => catalog_fault(entry.id@, entry.description@, views(seen@), disk) is None,
            Err(e) => catalog_fault(entry.id@, entry.description@, views(seen@), disk) == Some(e@),
        },
{
    if let Err(e) = validate_relative_path(entry.id.as_str()) {
        return Err(CatalogError::InvalidId(e));
    }
    let description = chars_of(entry.description.as_str());
    if trim(description.as_slice()).len() == 0 {
        return Err(CatalogError::MissingDescription(entry.id.clone()));
    }
    if seen_before(seen, &entry.id) {
        return Err(CatalogError::Duplicate(entry.id.clone()));
    }
    if !disk.is_dir {
        return Err(CatalogError::NotOnDisk(entry.id.clone()));
    }
    if !disk.has_manifest || !disk.has_tree {
        return Err(CatalogError::Incomplete(entry.id.clone()));
    }
    Ok(())
}

/// A step of preparing a fixture that can fail.
#[derive(Debug, Clone, Copy, PartialEq, Eq, Structural)]
pub enum FixtureStep {
    LoadManifest,
    ValidateManifest,
    VerifyTree,
    HashManifest,
    CreateTempDir,
    CreateFixtureDir,
    CopyTree,
    ApplyManifest,
    VerifyMaterialized,
}

pub open spec fn step_message(step: FixtureStep) -> Seq<char> {
    match step {
        FixtureStep::LoadManifest => "fixture manifest invalid"@,
        FixtureStep::ValidateManifest => "fixture manifest failed validation"@,
        FixtureStep::VerifyTree => "fixture tree failed validation"@,
        FixtureStep::HashManifest => "fixture manifest hashing failed"@,
        FixtureStep::CreateTempDir => "failed to create temp dir"@,
        FixtureStep::CreateFixtureDir => "failed to create fixture dir"@,
        FixtureStep::CopyTree => "failed to copy fixture tree"@,
        FixtureStep::ApplyManifest => "failed to apply fixture manifest"@,
        FixtureStep::VerifyMaterialized => "fixture materialization failed verification"@,
    }
}

/// The error of a step that failed: what the step was, and why it failed
/// as its one detail. The fixture is there, so it does not count as
/// missing.
pub fn fixture_failure(step: FixtureStep, detail: String) -> (error: FixtureError)
    ensures
        error.message@ == step_message(step),
        views(error.details@) == seq![detail@],
        !error.is_missing,
{
    let message = match step {
        FixtureStep::LoadManifest => "fixture manifest invalid",
        FixtureStep::ValidateManifest => "fixture manifest failed validation",
        FixtureStep::VerifyTree => "fixture tree failed validation",
        FixtureStep::HashManifest => "fixture manifest hashing failed",
        FixtureStep::CreateTempDir => "failed to create temp dir",
        FixtureStep::CreateFixtureDir => "failed to create fixture dir",
        FixtureStep::CopyTree => "failed to copy fixture tree",
        FixtureStep::ApplyManifest => "failed to apply fixture manifest",
        FixtureStep::VerifyMaterialized => "fixture materialization failed verification",
    };
    let mut details: Vec<String> = Vec::new();
    details.push(detail);
    assert(views(details@) =~= seq![detail@]);
    FixtureError { message: message.to_owned(), details, is_missing: false }
}

/// The error of a fixture that is not there: its directory where that is
/// missing, else its manifest or its tree.
pub open spec fn missing_message(dir: Seq<char>, dir_exists: bool) -> Seq<char> {
    if dir_exists {
        "fixture missing manifest or tree"@
    } else {
        "fixture not found: "@ + dir
    }
}

/// Says whether a fixture is there to be prepared: its directory, and in
/// it the manifest and the tree.
pub fn fixture_presence(dir: &str, dir_exists: bool, has_manifest: bool, has_tree: bool) -> (r:
    Result<(), FixtureError>)
    ensures
        match r {
            Ok(_) => dir_exists && has_manifest && has_tree,
            Err(error) => {
                &&& !(dir_exists && has_manifest && has_tree)
                &&& error.message@ == missing_message(dir@, dir_exists)
                &&& error.details@.len() == 0
                &&& error.is_missing
            },
        },
{
    if !dir_exists {
        let chars = chars_of(dir);
        return Err(
            FixtureError {
                message: join2("fixture not found: ", chars.as_slice()),
                details: Vec::new(),
                is_missing: true,
            },
        );
    }
    if !has_manifest || !has_tree {
        return Err(
            FixtureError {
                message: "fixture missing manifest or tree".to_owned(),
                details: Vec::new(),
                is_missing: true,
            },
        );
    }
    Ok(())
}

pub open spec fn manifest_message(fault: ManifestFault) -> Seq<char> {
    match fault {
        ManifestFault::UnsupportedVersion(v) => "unsupported manifest version "@ + decimal_digits(
            v as nat,
        ),
        ManifestFault::InvalidPath(e) => crate::paths::path_message(e),
        ManifestFault::DuplicateEntry(p) => "duplicate manifest entry "@ + p,
        ManifestFault::SymlinkUnsupported => "symlink entries are not supported"@,
        ManifestFault::UnsupportedType(t) => "unsupported entry type "@ + t,
        ManifestFault::InvalidMode(m) => "invalid mode "@ + m,
        ManifestFault::NegativeMtime => "mtime must be >= 0"@,
        ManifestFault::FileMissingFields => "file entry missing size or sha256"@,
        ManifestFault::DirHasFields => "dir entry must not include size or sha256"@,
    }
}

fn about(prefix: &str, what: &String) -> (text: String)
    ensures
        text@ == prefix@ + what@,
{
    let chars = chars_of(what.as_str());
    join2(prefix, chars.as_slice())
}

impl ManifestError {
    /// The fault in words.
    pub fn message(&self) -> (text: String)
        ensures
            text@ == manifest_message(self@),
    {
        match self {
            ManifestError::UnsupportedVersion(v) => {
                let mut buf = chars_of("unsupported manifest version ");
                push_unsigned(*v as u128, &mut buf);
                string_of(buf.as_slice())
            },
            ManifestError::InvalidPath(e) => e.message().to_owned(),
            ManifestError::DuplicateEntry(p) => about("duplicate manifest entry ", p),
            ManifestError::SymlinkUnsupported => "symlink entries are not supported".to_owned(),
            ManifestError::UnsupportedType(t) => about("unsupported entry type ", t),
            ManifestError::InvalidMode(m) => about("invalid mode ", m),
            ManifestError::NegativeMtime => "mtime must be >= 0".to_owned(),
            ManifestError::FileMissingFields => "file entry missing size or sha256".to_owned(),
            ManifestError::DirHasFields => "dir entry must not include size or sha256".to_owned(),
        }
    }
}

pub open spec fn tree_message(fault: TreeFault) -> Seq<char> {
    match fault {
        TreeFault::UnsupportedType => "unsupported manifest entry type"@,
        TreeFault::Missing(p) => "missing entry "@ + p,
        TreeFault::TypeMismatch(p) => "entry type mismatch "@ + p,
        TreeFault::Unexpected(p) => "unexpected entry "@ + p,
        TreeFault::SizeMismatch(p) => "size mismatch for "@ + p,
        TreeFault::HashMismatch(p) => "sha256 mismatch for "@ + p,
        TreeFault::InvalidMode(m) => "invalid mode "@ + m,
        TreeFault::ModeMismatch(p) => "mode mismatch for "@ + p,
        TreeFault::MtimeMismatch(p) => "mtime mismatch for "@ + p,
    }
}

impl TreeError {
    /// The fault in words.
    pub fn message(&self) -> (text: String)
        ensures
            text@ == tree_message(self@),
    {
        match self {
            TreeError::UnsupportedType => "unsupported manifest entry type".to_owned(),
            TreeError::Missing(p) => about("missing entry ", p),
            TreeError::TypeMismatch(p) => about("entry type mismatch ", p),
            TreeError::Unexpected(p) => about("unexpected entry ", p),
            TreeError::SizeMismatch(p) => about("size mismatch for ", p),
            TreeError::HashMismatch(p) => about("sha256 mismatch for ", p),
            TreeError::InvalidMode(m) => about("invalid mode ", m),
            TreeError::ModeMismatch(p) => about("mode mismatch for ", p),
            TreeError::MtimeMismatch(p) => about("mtime mismatch for ", p),
        }
    }
}

} // verus!
