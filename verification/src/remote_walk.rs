//! Matching the server's directory listings with local paths: the lookup of
//! the remote entries of a group of paths, and the discovery of a
//! directory's remote children while walking.

use vstd::prelude::*;
use crate::paths::{path_join, path_parent, paths_equal, spec_path_eq, spec_path_join, spec_path_parent};
use crate::remote::{RemoteFile, RemoteFileView};
use crate::text::str_eq;

verus! {

/// Whether a listed entry is a share redirect (a link to another user's
/// share), which the walk does not descend into: its metadata carries the
/// redirect key.
pub open spec fn is_redirect(file: RemoteFileView, redirect_key: Seq<char>) -> bool {
    match file.metadata {
        Some(m) => has_key(m, redirect_key),
        None => false,
    }
}

/// Whether one of the pairs has the key.
pub open spec fn has_key(m: Seq<(Seq<char>, Seq<char>)>, key: Seq<char>) -> bool {
    exists|i: int| 0 <= i < m.len() && (#[trigger] m[i]).0 == key
}

pub fn is_symbolic_link(file: &RemoteFile, redirect_key: &str) -> (r: bool)
    ensures
        r == is_redirect(file@, redirect_key@),
{
    match &file.metadata {
        Some(m) => {
            assert(file@.metadata == Some(crate::remote::pairs_view(m@)));
            let mut i: usize = 0;
            while i < m.len()
                invariant
                    i <= m@.len(),
                    file.metadata == Some(*m),
                    file@.metadata == Some(crate::remote::pairs_view(m@)),
                    forall|j: int| 0 <= j < i ==> (#[trigger] m@[j]).0@ != redirect_key@,
                decreases m.len() - i,
            {
                if str_eq(m[i].0.as_str(), redirect_key) {
                    let ghost pm = crate::remote::pairs_view(m@);
                    assert(pm.len() == m@.len());
                    assert(pm[i as int].0 == redirect_key@);
                    assert(file@.metadata == Some(pm));
                    assert(has_key(pm, redirect_key@));
                    return true;
                }
                i = i + 1;
            }
            assert forall|j: int| 0 <= j < m@.len() implies (#[trigger] crate::remote::pairs_view(m@)[j]).0
                != redirect_key@ by {
                assert(crate::remote::pairs_view(m@)[j].0 == m@[j].0@);
            }
            false
        },
        None => false,
    }
}

/// The base path with a trailing `/`.
pub open spec fn with_trailing_slash(base: Seq<char>) -> Seq<char> {
    if base.len() > 0 && base.last() == '/' {
        base
    } else {
        base.push('/')
    }
}

/// The text with every `/` replaced by `sep`.
pub open spec fn replace_slashes(s: Seq<char>, sep: char) -> Seq<char> {
    Seq::new(s.len(), |i: int| if s[i] == '/' { sep } else { s[i] })
}

/// The local relative path of a remote path below a remote base: the base
/// (with a trailing slash) is stripped and slashes become the platform's
/// separator; `None` when the path is not below the base.
pub open spec fn relative_under_base(remote: Seq<char>, base: Seq<char>, sep: char) -> Option<Seq<char>> {
    let b = with_trailing_slash(base);
    if b.len() <= remote.len() && remote.subrange(0, b.len() as int) == b {
        Some(replace_slashes(remote.subrange(b.len() as int, remote.len() as int), sep))
    } else {
        None
    }
}

fn has_prefix(s: &str, prefix: &str) -> (r: bool)
    ensures
        r == (prefix@.len() <= s@.len() && s@.subrange(0, prefix@.len() as int) == prefix@),
{
    let n = s.unicode_len();
    let m = prefix.unicode_len();
    if m > n {
        return false;
    }
    let mut i: usize = 0;
    while i < m
        invariant
            m == prefix@.len(),
            n == s@.len(),
            m <= n,
            i <= m,
            forall|k: int| 0 <= k < i ==> s@[k] == prefix@[k],
        decreases m - i,
    {
        if s.get_char(i) != prefix.get_char(i) {
            assert(s@.subrange(0, m as int)[i as int] != prefix@[i as int]);
            return false;
        }
        i = i + 1;
    }
    assert(s@.subrange(0, m as int) =~= prefix@);
    true
}

fn slashes_replaced_from(s: &str, start: usize, separator: char) -> (r: String)
    requires
        start <= s@.len(),
    ensures
        r@ == replace_slashes(s@.subrange(start as int, s@.len() as int), separator),
{
    let n = s.unicode_len();
    let mut out = String::new();
    let mut j: usize = start;
    while j < n
        invariant
            start <= j <= n,
            n == s@.len(),
            out@ =~= replace_slashes(s@.subrange(start as int, j as int), separator),
        decreases n - j,
    {
        let c = s.get_char(j);
        if c == '/' {
            out.push(separator);
        } else {
            out.push(c);
        }
        j = j + 1;
    }
    out
}

/// Maps the path part of a remote URI to a local relative path (see
/// [`relative_under_base`]); refused with "Path is not under remote base".
pub fn remote_path_to_local_relative_path(remote_path: &str, remote_base: &str, separator: char) -> (r:
    Result<String, String>)
    ensures
        match relative_under_base(remote_path@, remote_base@, separator) {
            Some(rel) => r is Ok && r->Ok_0@ == rel,
            None => r is Err && r->Err_0@ == "Path is not under remote base"@,
        },
{
    let mut base = String::new();
    crate::text::push_str(&mut base, remote_base);
    let bn = remote_base.unicode_len();
    if bn == 0 || remote_base.get_char(bn - 1) != '/' {
        base.push('/');
    }
    assert(base@ =~= with_trailing_slash(remote_base@));
    if !has_prefix(remote_path, base.as_str()) {
        let mut msg = String::new();
        crate::text::push_str(&mut msg, "Path is not under remote base");
        return Err(msg);
    }
    let blen = base.as_str().unicode_len();
    Ok(slashes_replaced_from(remote_path, blen, separator))
}

/// One target of a lookup: a remote URI, the local path it stands for, and
/// the listed entry once found.
#[derive(Debug)]
pub struct LookupEntry {
    pub uri: String,
    pub local_path: String,
    pub found: Option<RemoteFile>,
}

/// Looks up the remote entries of a group of paths in the listing of their
/// parent, page by page. The first listed entry with a target's URI is that
/// target's; a URI given twice is looked up for its last target only.
#[derive(Debug)]
pub struct RemoteLookup {
    entries: Vec<LookupEntry>,
}

pub open spec fn opt_file_view(f: Option<RemoteFile>) -> Option<RemoteFileView> {
    match f {
        Some(x) => Some(x@),
        None => None,
    }
}

/// Position of the first key equal to `key`, from `i` on.
pub open spec fn first_index(keys: Seq<Seq<char>>, key: Seq<char>, i: int) -> Option<int>
    decreases keys.len() - i,
{
    if i < 0 || i >= keys.len() {
        None
    } else if keys[i] == key {
        Some(i)
    } else {
        first_index(keys, key, i + 1)
    }
}

proof fn lemma_first_index_in_range(keys: Seq<Seq<char>>, key: Seq<char>, i: int)
    ensures
        first_index(keys, key, i) matches Some(k) ==> i <= k < keys.len() && keys[k] == key,
    decreases keys.len() - i,
{
    if 0 <= i < keys.len() && keys[i] != key {
        lemma_first_index_in_range(keys, key, i + 1);
    }
}

/// The matches after one more listed entry.
pub open spec fn absorb_file(
    keys: Seq<Seq<char>>,
    found: Seq<Option<RemoteFileView>>,
    f: RemoteFileView,
) -> Seq<Option<RemoteFileView>> {
    match first_index(keys, f.path, 0) {
        Some(j) => if found[j] is None {
            found.update(j, Some(f))
        } else {
            found
        },
        None => found,
    }
}

/// The matches after a run of listed entries.
pub open spec fn absorb_files(
    keys: Seq<Seq<char>>,
    found: Seq<Option<RemoteFileView>>,
    files: Seq<RemoteFileView>,
) -> Seq<Option<RemoteFileView>>
    decreases files.len(),
{
    if files.len() == 0 {
        found
    } else {
        absorb_file(keys, absorb_files(keys, found, files.drop_last()), files.last())
    }
}

pub open spec fn files_view(v: Seq<RemoteFile>) -> Seq<RemoteFileView> {
    v.map_values(|f: RemoteFile| f@)
}

pub open spec fn uris_of(v: Seq<LookupEntry>) -> Seq<Seq<char>> {
    v.map_values(|e: LookupEntry| e.uri@)
}

pub open spec fn locals_of(v: Seq<LookupEntry>) -> Seq<Seq<char>> {
    v.map_values(|e: LookupEntry| e.local_path@)
}

pub open spec fn found_of(v: Seq<LookupEntry>) -> Seq<Option<RemoteFileView>> {
    v.map_values(|e: LookupEntry| opt_file_view(e.found))
}

/// The (local path, entry) pairs of the targets that were found, in order.
pub open spec fn found_pairs(locals: Seq<Seq<char>>, found: Seq<Option<RemoteFileView>>) -> Seq<
    (Seq<char>, RemoteFileView),
>
    decreases found.len(),
{
    if found.len() == 0 {
        Seq::empty()
    } else {
        let rest = found_pairs(locals, found.drop_last());
        match found.last() {
            Some(f) => rest.push((locals[found.len() - 1], f)),
            None => rest,
        }
    }
}

/// The URIs of the targets not found, in order.
pub open spec fn missing_uris(uris: Seq<Seq<char>>, found: Seq<Option<RemoteFileView>>) -> Seq<Seq<char>>
    decreases found.len(),
{
    if found.len() == 0 {
        Seq::empty()
    } else {
        let rest = missing_uris(uris, found.drop_last());
        if found.last() is None {
            rest.push(uris[found.len() - 1])
        } else {
            rest
        }
    }
}

/// No later target has the same URI.
pub open spec fn last_of_uri(t: Seq<(String, String)>, i: int) -> bool {
    forall|j: int| i < j < t.len() ==> (#[trigger] t[j]).0@ != t[i].0@
}

/// The targets among the first `n` that are kept, as (URI, local path), in
/// order: a URI given more than once keeps its last target only.
pub open spec fn kept_targets(t: Seq<(String, String)>, n: int) -> Seq<(Seq<char>, Seq<char>)>
    decreases n,
{
    if n <= 0 || n > t.len() {
        Seq::empty()
    } else {
        let rest = kept_targets(t, n - 1);
        if last_of_uri(t, n - 1) {
            rest.push((t[n - 1].0@, t[n - 1].1@))
        } else {
            rest
        }
    }
}

pub open spec fn first_parts(s: Seq<(Seq<char>, Seq<char>)>) -> Seq<Seq<char>> {
    s.map_values(|x: (Seq<char>, Seq<char>)| x.0)
}

pub open spec fn second_parts(s: Seq<(Seq<char>, Seq<char>)>) -> Seq<Seq<char>> {
    s.map_values(|x: (Seq<char>, Seq<char>)| x.1)
}

pub open spec fn entry_pairs(v: Seq<LookupEntry>) -> Seq<(Seq<char>, Seq<char>)> {
    v.map_values(|e: LookupEntry| (e.uri@, e.local_path@))
}

pub open spec fn all_found(found: Seq<Option<RemoteFileView>>) -> bool {
    forall|j: int| 0 <= j < found.len() ==> (#[trigger] found[j]) is Some
}

impl RemoteLookup {
    /// The targets' URIs.
    pub closed spec fn uris(&self) -> Seq<Seq<char>> {
        uris_of(self.entries@)
    }

    /// The targets' local paths.
    pub closed spec fn locals(&self) -> Seq<Seq<char>> {
        locals_of(self.entries@)
    }

    /// What was found for each target so far.
    pub closed spec fn found_view(&self) -> Seq<Option<RemoteFileView>> {
        found_of(self.entries@)
    }

    /// A lookup of the (URI, local path) targets, none found yet. A URI
    /// given more than once is looked up for its last target only.
    pub fn new(targets: &Vec<(String, String)>) -> (r: Self)
        ensures
            r.uris() == first_parts(kept_targets(targets@, targets@.len() as int)),
            r.locals() == second_parts(kept_targets(targets@, targets@.len() as int)),
            r.found_view() == Seq::new(
                kept_targets(targets@, targets@.len() as int).len(),
                |i: int| None::<RemoteFileView>,
            ),
    {
        let mut entries: Vec<LookupEntry> = Vec::new();
        let mut i: usize = 0;
        while i < targets.len()
            invariant
                i <= targets@.len(),
                entry_pairs(entries@) == kept_targets(targets@, i as int),
                forall|k: int| 0 <= k < entries@.len() ==> (#[trigger] entries@[k]).found is None,
            decreases targets.len() - i,
        {
            let mut later = false;
            let mut j: usize = i + 1;
            while j < targets.len()
                invariant
                    i < targets@.len(),
                    i + 1 <= j <= targets@.len(),
                    later == exists|m: int| i < m < j && (#[trigger] targets@[m]).0@ == targets@[i as int].0@,
                decreases targets.len() - j,
            {
                if str_eq(targets[j].0.as_str(), targets[i].0.as_str()) {
                    later = true;
                }
                j = j + 1;
            }
            assert(later == !last_of_uri(targets@, i as int));
            if !later {
                let ghost old_entries = entries@;
                entries.push(
                    LookupEntry { uri: targets[i].0.clone(), local_path: targets[i].1.clone(), found: None },
                );
                assert(entry_pairs(entries@) =~= entry_pairs(old_entries).push(
                    (targets@[i as int].0@, targets@[i as int].1@),
                )) by {
                    assert forall|k: int| 0 <= k < old_entries.len() implies entries@[k] == old_entries[k] by {}
                }
            }
            i = i + 1;
        }
        let ghost n = targets@.len() as int;
        assert(first_parts(kept_targets(targets@, n)) =~= uris_of(entries@));
        assert(second_parts(kept_targets(targets@, n)) =~= locals_of(entries@));
        assert(found_of(entries@) =~= Seq::new(kept_targets(targets@, n).len(), |i: int| None::<RemoteFileView>));
        RemoteLookup { entries }
    }

    /// Position of the first target with URI `uri`.
    fn find_uri(&self, uri: &str) -> (r: Option<usize>)
        ensures
            match r {
                Some(j) => first_index(self.uris(), uri@, 0) == Some(j as int) && j < self.entries@.len(),
                None => first_index(self.uris(), uri@, 0) is None,
            },
    {
        let mut j: usize = 0;
        while j < self.entries.len()
            invariant
                j <= self.entries@.len(),
                self.uris().len() == self.entries@.len(),
                first_index(self.uris(), uri@, 0) == first_index(self.uris(), uri@, j as int),
            decreases self.entries.len() - j,
        {
            if str_eq(self.entries[j].uri.as_str(), uri) {
                assert(self.uris()[j as int] == uri@);
                return Some(j);
            }
            assert(self.uris()[j as int] != uri@);
            j = j + 1;
        }
        None
    }

    /// Whether every target has been found.
    pub fn complete(&self) -> (r: bool)
        ensures
            r == all_found(self.found_view()),
    {
        let mut j: usize = 0;
        while j < self.entries.len()
            invariant
                j <= self.entries@.len(),
                forall|k: int| 0 <= k < j ==> (#[trigger] self.found_view()[k]) is Some,
            decreases self.entries.len() - j,
        {
            if self.entries[j].found.is_none() {
                assert(self.found_view()[j as int] is None);
                return false;
            }
            j = j + 1;
        }
        true
    }

    /// Takes in one page of the listing; returns whether another page is
    /// to be fetched: the server has more and some target is still missing.
    pub fn absorb_page(&mut self, files: &Vec<RemoteFile>, more: bool) -> (r: bool)
        ensures
            final(self).uris() == old(self).uris(),
            final(self).locals() == old(self).locals(),
            final(self).found_view() == absorb_files(old(self).uris(), old(self).found_view(), files_view(files@)),
            r == (more && !all_found(final(self).found_view())),
    {
        let mut i: usize = 0;
        while i < files.len()
            invariant
                i <= files@.len(),
                self.uris() == old(self).uris(),
                self.locals() == old(self).locals(),
                self.found_view() == absorb_files(
                    old(self).uris(),
                    old(self).found_view(),
                    files_view(files@.subrange(0, i as int)),
                ),
            decreases files.len() - i,
        {
            let ghost pre = files_view(files@.subrange(0, i as int));
            let ghost post = files_view(files@.subrange(0, i + 1));
            assert(post.drop_last() =~= pre);
            assert(post.last() == files@[i as int]@);
            let ghost before = self.found_view();
            let file = &files[i];
            match self.find_uri(file.path.as_str()) {
                Some(j) => {
                    if self.entries[j].found.is_none() {
                        let entry = LookupEntry {
                            uri: self.entries[j].uri.clone(),
                            local_path: self.entries[j].local_path.clone(),
                            found: Some(file.duplicate()),
                        };
                        let ghost old_entries = self.entries@;
                        self.entries.set(j, entry);
                        assert(uris_of(self.entries@) =~= uris_of(old_entries));
                        assert(locals_of(self.entries@) =~= locals_of(old_entries));
                        assert(self.found_view() =~= before.update(j as int, Some(files@[i as int]@)));
                    }
                },
                None => {},
            }
            i = i + 1;
        }
        assert(files@.subrange(0, files@.len() as int) =~= files@);
        if !more {
            return false;
        }
        !self.complete()
    }

    /// The URIs still missing, for reporting.
    pub fn missing(&self) -> (r: Vec<String>)
        ensures
            crate::sync_run::strings_view(r@) == missing_uris(self.uris(), self.found_view()),
    {
        let mut out: Vec<String> = Vec::new();
        let mut i: usize = 0;
        while i < self.entries.len()
            invariant
                i <= self.entries@.len(),
                crate::sync_run::strings_view(out@) == missing_uris(
                    self.uris(),
                    self.found_view().subrange(0, i as int),
                ),
            decreases self.entries.len() - i,
        {
            let ghost f1 = self.found_view().subrange(0, i + 1);
            assert(f1.drop_last() =~= self.found_view().subrange(0, i as int));
            if self.entries[i].found.is_none() {
                out.push(self.entries[i].uri.clone());
            }
            assert(crate::sync_run::strings_view(out@) =~= missing_uris(self.uris(), f1));
            i = i + 1;
        }
        assert(self.found_view().subrange(0, self.entries@.len() as int) =~= self.found_view());
        out
    }

    /// The found entries keyed by local path, in target order.
    pub fn into_found(self) -> (r: Vec<(String, RemoteFile)>)
        ensures
            r@.map_values(|p: (String, RemoteFile)| (p.0@, p.1@)) == found_pairs(self.locals(), self.found_view()),
    {
        let mut out: Vec<(String, RemoteFile)> = Vec::new();
        let mut i: usize = 0;
        while i < self.entries.len()
            invariant
                i <= self.entries@.len(),
                out@.map_values(|p: (String, RemoteFile)| (p.0@, p.1@)) == found_pairs(
                    self.locals(),
                    self.found_view().subrange(0, i as int),
                ),
            decreases self.entries.len() - i,
        {
            let ghost f1 = self.found_view().subrange(0, i + 1);
            assert(f1.drop_last() =~= self.found_view().subrange(0, i as int));
            match &self.entries[i].found {
                Some(f) => {
                    out.push((self.entries[i].local_path.clone(), f.duplicate()));
                },
                None => {},
            }
            assert(out@.map_values(|p: (String, RemoteFile)| (p.0@, p.1@)) =~= found_pairs(self.locals(), f1));
            i = i + 1;
        }
        assert(self.found_view().subrange(0, self.entries@.len() as int) =~= self.found_view());
        out
    }
}

/// A target, once found, keeps the entry it was first matched with.
pub proof fn lemma_first_match_is_kept(
    keys: Seq<Seq<char>>,
    found: Seq<Option<RemoteFileView>>,
    files: Seq<RemoteFileView>,
    j: int,
)
    requires
        0 <= j < found.len(),
        found[j] is Some,
        found.len() == keys.len(),
    ensures
        absorb_files(keys, found, files).len() == found.len(),
        absorb_files(keys, found, files)[j] == found[j],
    decreases files.len(),
{
    if files.len() > 0 {
        lemma_first_match_is_kept(keys, found, files.drop_last(), j);
        lemma_first_index_in_range(keys, files.last().path, 0);
    }
}

/// The local path a listed entry stands for when it is a child of the
/// walked directory: not a share redirect, below the remote base, and with
/// the directory as its parent.
pub open spec fn child_local_path(
    sync_root: Seq<char>,
    directory: Seq<char>,
    base_path: Seq<char>,
    separator: char,
    redirect_key: Seq<char>,
    file: RemoteFileView,
    uri_path: Option<Seq<char>>,
) -> Option<Seq<char>> {
    if is_redirect(file, redirect_key) {
        None
    } else {
        match uri_path {
            None => None,
            Some(p) => match relative_under_base(p, base_path, separator) {
                None => None,
                Some(rel) => {
                    let local = spec_path_join(sync_root, rel);
                    match spec_path_parent(local) {
                        Some(q) => if spec_path_eq(q, directory) {
                            Some(local)
                        } else {
                            None
                        },
                        None => None,
                    }
                },
            },
        }
    }
}

pub open spec fn listed_children(
    sync_root: Seq<char>,
    directory: Seq<char>,
    base_path: Seq<char>,
    separator: char,
    redirect_key: Seq<char>,
    entries: Seq<(RemoteFileView, Option<Seq<char>>)>,
) -> Seq<(Seq<char>, RemoteFileView)>
    decreases entries.len(),
{
    if entries.len() == 0 {
        Seq::empty()
    } else {
        let rest = listed_children(
            sync_root,
            directory,
            base_path,
            separator,
            redirect_key,
            entries.drop_last(),
        );
        let (f, u) = entries.last();
        match child_local_path(sync_root, directory, base_path, separator, redirect_key, f, u) {
            Some(local) => rest.push((local, f)),
            None => rest,
        }
    }
}

pub open spec fn entries_view(v: Seq<(RemoteFile, Option<String>)>) -> Seq<(RemoteFileView, Option<Seq<char>>)> {
    v.map_values(|e: (RemoteFile, Option<String>)| (e.0@, crate::remote::opt_view(e.1)))
}

/// The remote children of `directory` in one page of its listing. Each
/// entry comes with the path part of its URI (`None` when the URI did not
/// parse); `base_path` is the path part of the mount's remote base.
pub fn remote_children_in_page(
    sync_root: &str,
    directory: &str,
    base_path: &str,
    separator: char,
    redirect_key: &str,
    entries: &Vec<(RemoteFile, Option<String>)>,
) -> (r: Vec<(String, RemoteFile)>)
    ensures
        r@.map_values(|p: (String, RemoteFile)| (p.0@, p.1@)) == listed_children(
            sync_root@,
            directory@,
            base_path@,
            separator,
            redirect_key@,
            entries_view(entries@),
        ),
{
    let mut out: Vec<(String, RemoteFile)> = Vec::new();
    let mut i: usize = 0;
    while i < entries.len()
        invariant
            i <= entries@.len(),
            out@.map_values(|p: (String, RemoteFile)| (p.0@, p.1@)) == listed_children(
                sync_root@,
                directory@,
                base_path@,
                separator,
                redirect_key@,
                entries_view(entries@.subrange(0, i as int)),
            ),
        decreases entries.len() - i,
    {
        let ghost pre = entries_view(entries@.subrange(0, i as int));
        let ghost post = entries_view(entries@.subrange(0, i + 1));
        assert(post.drop_last() =~= pre);
        assert(post.last() == (entries@[i as int].0@, crate::remote::opt_view(entries@[i as int].1)));
        let file = &entries[i].0;
        let child: Option<String> = if is_symbolic_link(file, redirect_key) {
            None
        } else {
            match &entries[i].1 {
                None => None,
                Some(p) => match remote_path_to_local_relative_path(p.as_str(), base_path, separator) {
                    Err(_) => None,
                    Ok(rel) => {
                        let local = path_join(sync_root, rel.as_str());
                        match path_parent(local.as_str()) {
                            Some(q) => if paths_equal(q.as_str(), directory) {
                                Some(local)
                            } else {
                                None
                            },
                            None => None,
                        }
                    },
                },
            }
        };
        match child {
            Some(local) => {
                out.push((local, file.duplicate()));
            },
            None => {},
        }
        assert(out@.map_values(|p: (String, RemoteFile)| (p.0@, p.1@)) =~= listed_children(
            sync_root@,
            directory@,
            base_path@,
            separator,
            redirect_key@,
            post,
        ));
        i = i + 1;
    }
    assert(entries@.subrange(0, entries@.len() as int) =~= entries@);
    out
}

/// Whether `p` is one of `list`.
pub open spec fn in_list(list: Seq<Seq<char>>, p: Seq<char>) -> bool {
    exists|i: int| 0 <= i < list.len() && list[i] == p
}

fn contains_text(list: &Vec<String>, p: &str) -> (r: bool)
    ensures
        r == in_list(crate::sync_run::strings_view(list@), p@),
{
    let mut i: usize = 0;
    while i < list.len()
        invariant
            i <= list@.len(),
            forall|j: int| 0 <= j < i ==> (#[trigger] list@[j])@ != p@,
        decreases list.len() - i,
    {
        if str_eq(list[i].as_str(), p) {
            assert(crate::sync_run::strings_view(list@)[i as int] == p@);
            return true;
        }
        i = i + 1;
    }
    assert forall|j: int| 0 <= j < list@.len() implies crate::sync_run::strings_view(list@)[j] != p@ by {
        assert(crate::sync_run::strings_view(list@)[j] == list@[j]@);
    }
    false
}

pub open spec fn distinct_texts(v: Seq<String>) -> bool {
    forall|a: int, b: int| 0 <= a < b < v.len() ==> (#[trigger] v[a])@ != (#[trigger] v[b])@
}

fn push_if_absent(out: &mut Vec<String>, item: &String)
    requires
        distinct_texts(old(out)@),
    ensures
        distinct_texts(final(out)@),
        forall|p: Seq<char>|
            in_list(crate::sync_run::strings_view(final(out)@), p) <==> (in_list(
                crate::sync_run::strings_view(old(out)@),
                p,
            ) || p == item@),
{
    let ghost before = crate::sync_run::strings_view(out@);
    if !contains_text(out, item.as_str()) {
        out.push(item.clone());
        proof {
            let after = crate::sync_run::strings_view(out@);
            assert(after =~= before.push(item@));
            assert forall|p: Seq<char>| in_list(after, p) <==> (in_list(before, p) || p == item@) by {
                if in_list(after, p) {
                    let w = choose|w: int| 0 <= w < after.len() && after[w] == p;
                    if w < before.len() {
                        assert(before[w] == p);
                    }
                }
                if in_list(before, p) {
                    let w = choose|w: int| 0 <= w < before.len() && before[w] == p;
                    assert(after[w] == p);
                }
                if p == item@ {
                    assert(after[before.len() as int] == p);
                }
            }
            assert forall|a: int, b: int| 0 <= a < b < out@.len() implies (#[trigger] out@[a])@
                != (#[trigger] out@[b])@ by {
                if b == out@.len() - 1 {
                    assert(before[a] == out@[a]@);
                    if out@[a]@ == item@ {
                        assert(in_list(before, item@));
                    }
                } else {
                    assert(out@[a] == old(out)@[a]);
                    assert(out@[b] == old(out)@[b]);
                }
            }
        }
    }
}

proof fn lemma_in_list_concat(a: Seq<Seq<char>>, b: Seq<Seq<char>>, p: Seq<char>)
    ensures
        in_list(a + b, p) <==> (in_list(a, p) || in_list(b, p)),
{
    let ab = a + b;
    if in_list(ab, p) {
        let k = choose|k: int| 0 <= k < ab.len() && ab[k] == p;
        if k < a.len() {
            assert(a[k] == p);
        } else {
            assert(b[k - a.len()] == p);
        }
    }
    if in_list(a, p) {
        let k = choose|k: int| 0 <= k < a.len() && a[k] == p;
        assert(ab[k] == p);
    }
    if in_list(b, p) {
        let k = choose|k: int| 0 <= k < b.len() && b[k] == p;
        assert(ab[a.len() + k] == p);
    }
}

fn dedup_texts(items: &Vec<String>) -> (r: Vec<String>)
    ensures
        forall|p: Seq<char>|
            in_list(crate::sync_run::strings_view(r@), p) <==> in_list(crate::sync_run::strings_view(items@), p),
        distinct_texts(r@),
{
    let mut out: Vec<String> = Vec::new();
    let ghost lv = crate::sync_run::strings_view(items@);
    let mut i: usize = 0;
    while i < items.len()
        invariant
            i <= items@.len(),
            lv == crate::sync_run::strings_view(items@),
            distinct_texts(out@),
            forall|p: Seq<char>|
                in_list(crate::sync_run::strings_view(out@), p) <==> in_list(lv.subrange(0, i as int), p),
        decreases items.len() - i,
    {
        let ghost out_before = crate::sync_run::strings_view(out@);
        push_if_absent(&mut out, &items[i]);
        proof {
            assert(lv[i as int] == items@[i as int]@);
            assert forall|p: Seq<char>| in_list(lv.subrange(0, i + 1), p) <==> (in_list(
                lv.subrange(0, i as int),
                p,
            ) || p == items@[i as int]@) by {
                let s1 = lv.subrange(0, i + 1);
                let s0 = lv.subrange(0, i as int);
                if in_list(s1, p) {
                    let w = choose|w: int| 0 <= w < s1.len() && s1[w] == p;
                    if w < i {
                        assert(s0[w] == p);
                    }
                }
                if in_list(s0, p) {
                    let w = choose|w: int| 0 <= w < s0.len() && s0[w] == p;
                    assert(s1[w] == p);
                }
                if p == items@[i as int]@ {
                    assert(s1[i as int] == p);
                }
            }
            assert forall|p: Seq<char>| in_list(crate::sync_run::strings_view(out@), p) <==> in_list(
                lv.subrange(0, i + 1),
                p,
            ) by {
                assert(in_list(crate::sync_run::strings_view(out@), p) <==> (in_list(out_before, p) || p
                    == items@[i as int]@));
                assert(in_list(out_before, p) <==> in_list(lv.subrange(0, i as int), p));
            }
        }
        i = i + 1;
    }
    assert(lv.subrange(0, items@.len() as int) =~= lv);
    out
}

/// The children to sync when walking a directory: the local entries and
/// the remote ones, each once.
pub fn union_children(local: &Vec<String>, remote: &Vec<String>) -> (r: Vec<String>)
    ensures
        forall|p: Seq<char>|
            in_list(crate::sync_run::strings_view(r@), p) <==> (in_list(
                crate::sync_run::strings_view(local@),
                p,
            ) || in_list(crate::sync_run::strings_view(remote@), p)),
        distinct_texts(r@),
{
    let mut all: Vec<String> = Vec::new();
    let mut i: usize = 0;
    while i < local.len()
        invariant
            i <= local@.len(),
            crate::sync_run::strings_view(all@) == crate::sync_run::strings_view(local@.subrange(0, i as int)),
        decreases local.len() - i,
    {
        let ghost old_all = all@;
        let c = local[i].clone();
        all.push(c);
        proof {
            crate::sync_run::lemma_strings_view_push(old_all, c);
            assert(local@.subrange(0, i + 1) =~= local@.subrange(0, i as int).push(local@[i as int]));
            crate::sync_run::lemma_strings_view_push(local@.subrange(0, i as int), local@[i as int]);
        }
        i = i + 1;
    }
    assert(local@.subrange(0, local@.len() as int) =~= local@);
    let mut j: usize = 0;
    while j < remote.len()
        invariant
            j <= remote@.len(),
            crate::sync_run::strings_view(all@) == crate::sync_run::strings_view(local@)
                + crate::sync_run::strings_view(remote@.subrange(0, j as int)),
        decreases remote.len() - j,
    {
        let ghost old_all = all@;
        let c = remote[j].clone();
        all.push(c);
        proof {
            crate::sync_run::lemma_strings_view_push(old_all, c);
            assert(remote@.subrange(0, j + 1) =~= remote@.subrange(0, j as int).push(remote@[j as int]));
            crate::sync_run::lemma_strings_view_push(remote@.subrange(0, j as int), remote@[j as int]);
            assert(crate::sync_run::strings_view(all@) =~= crate::sync_run::strings_view(local@)
                + crate::sync_run::strings_view(remote@.subrange(0, j + 1)));
        }
        j = j + 1;
    }
    assert(remote@.subrange(0, remote@.len() as int) =~= remote@);
    let out = dedup_texts(&all);
    proof {
        assert forall|p: Seq<char>| in_list(crate::sync_run::strings_view(out@), p) <==> (in_list(
            crate::sync_run::strings_view(local@),
            p,
        ) || in_list(crate::sync_run::strings_view(remote@), p)) by {
            lemma_in_list_concat(crate::sync_run::strings_view(local@), crate::sync_run::strings_view(remote@), p);
        }
    }
    out
}

} // verus!
