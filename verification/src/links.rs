//! Links into the web interface, the remote URI an inventory entry records,
//! and the mapping of the paths named by the server's change events.

use vstd::prelude::*;
use crate::inventory::FileMetadata;
use crate::paths::{path_join, spec_path_join};
use crate::placeholders::{inventory_remote_uri_key, inventory_remote_uri_key_text};
use crate::remote::pairs_view;
use crate::remote_walk::{relative_under_base, remote_path_to_local_relative_path};
use crate::text::{push_str, str_eq};

verus! {

/// The URL made from a base URL by setting its path to `path` and
/// appending the query pairs (form-encoded); `None` when the base does not
/// parse as a URL.
pub uninterp spec fn spec_url_with_query(base: Seq<char>, path: Seq<char>, pairs: Seq<(Seq<char>, Seq<char>)>) -> Option<Seq<char>>;

/// `url::Url::parse`, `Url::set_path(path)`, `append_pair` on
/// `Url::query_pairs_mut` for each pair in order, and the serialisation;
/// the result is the named value. The parse error's message is left unsaid.
#[verifier::external_body]
fn url_with_query(base: &str, path: &str, pairs: &Vec<(String, String)>) -> (r: Result<String, String>)
    ensures
        match spec_url_with_query(base@, path@, pairs_view(pairs@)) {
            Some(u) => r is Ok && r->Ok_0@ == u,
            None => r is Err,
        },
{
    let mut url = url::Url::parse(base).map_err(|e| e.to_string())?;
    url.set_path(path);
    {
        let mut query = url.query_pairs_mut();
        for (k, v) in pairs.iter() {
            query.append_pair(k, v);
        }
    }
    Ok(url.to_string())
}

fn pair(k: &str, v: &str) -> (r: (String, String))
    ensures
        r.0@ == k@,
        r.1@ == v@,
{
    (k.to_owned(), v.to_owned())
}

/// The path of the web interface's file browser.
pub open spec fn home_path() -> Seq<char> {
    "/home"@
}

/// The query of a "view online" link: the folder, the file to open if
/// any, and the user hint.
pub open spec fn view_online_pairs(folder_path: Seq<char>, open_file: Option<Seq<char>>, user_id: Seq<char>) -> Seq<
    (Seq<char>, Seq<char>),
> {
    match open_file {
        Some(f) => seq![("path"@, folder_path), ("open"@, f), ("user_hint"@, user_id)],
        None => seq![("path"@, folder_path), ("user_hint"@, user_id)],
    }
}

/// The web interface link that shows a folder, or a file in its parent
/// folder (`open_file`).
pub fn view_online_url(instance_url: &str, user_id: &str, folder_path: &str, open_file: Option<&str>) -> (r:
    Result<String, String>)
    ensures
        match spec_url_with_query(
            instance_url@,
            home_path(),
            view_online_pairs(
                folder_path@,
                match open_file {
                    Some(f) => Some(f@),
                    None => None,
                },
                user_id@,
            ),
        ) {
            Some(u) => r is Ok && r->Ok_0@ == u,
            None => r is Err,
        },
{
    let mut pairs: Vec<(String, String)> = Vec::new();
    pairs.push(pair("path", folder_path));
    match open_file {
        Some(f) => pairs.push(pair("open", f)),
        None => {},
    }
    pairs.push(pair("user_hint", user_id));
    assert(pairs_view(pairs@) =~= view_online_pairs(
        folder_path@,
        match open_file {
            Some(f) => Some(f@),
            None => None,
        },
        user_id@,
    ));
    url_with_query(instance_url, "/home", &pairs)
}

/// The query of the recycle bin link.
pub open spec fn recycle_bin_pairs(user_id: Seq<char>) -> Seq<(Seq<char>, Seq<char>)> {
    seq![("user_hint"@, user_id), ("path"@, "cloudreve://trash"@)]
}

/// The web interface link to the user's recycle bin.
pub fn recycle_bin_url(instance_url: &str, user_id: &str) -> (r: Result<String, String>)
    ensures
        match spec_url_with_query(instance_url@, home_path(), recycle_bin_pairs(user_id@)) {
            Some(u) => r is Ok && r->Ok_0@ == u,
            None => r is Err,
        },
{
    let mut pairs: Vec<(String, String)> = Vec::new();
    pairs.push(pair("user_hint", user_id));
    pairs.push(pair("path", "cloudreve://trash"));
    assert(pairs_view(pairs@) =~= recycle_bin_pairs(user_id@));
    url_with_query(instance_url, "/home", &pairs)
}

/// The remote URI an inventory entry recorded, if it recorded a non-empty
/// one: it is preferred over a URI derived from the local path, which can
/// differ for shared folders.
pub open spec fn stored_uri_spec(meta: Option<&FileMetadata>) -> Option<Seq<char>> {
    match meta {
        Some(m) => {
            let p = pairs_view(m.metadata@);
            if exists|i: int| 0 <= i < p.len() && (#[trigger] p[i]).0 == inventory_remote_uri_key() {
                let i = choose|i: int|
                    0 <= i < p.len() && (#[trigger] p[i]).0 == inventory_remote_uri_key() && forall|j: int|
                        0 <= j < i ==> (#[trigger] p[j]).0 != inventory_remote_uri_key();
                if p[i].1.len() > 0 {
                    Some(p[i].1)
                } else {
                    None
                }
            } else {
                None
            }
        },
        None => None,
    }
}

pub fn stored_remote_uri(meta: Option<&FileMetadata>) -> (r: Option<String>)
    ensures
        crate::remote::opt_view(r) == stored_uri_spec(meta),
{
    let m = match meta {
        Some(m) => m,
        None => {
            return None;
        },
    };
    let key = inventory_remote_uri_key_text();
    let ghost p = pairs_view(m.metadata@);
    let mut i: usize = 0;
    while i < m.metadata.len()
        invariant
            i <= m.metadata@.len(),
            p == pairs_view(m.metadata@),
            meta == Some(m),
            key@ == inventory_remote_uri_key(),
            forall|j: int| 0 <= j < i ==> (#[trigger] p[j]).0 != inventory_remote_uri_key(),
        decreases m.metadata.len() - i,
    {
        if str_eq(m.metadata[i].0.as_str(), key) {
            proof {
                let w = choose|w: int|
                    0 <= w < p.len() && (#[trigger] p[w]).0 == inventory_remote_uri_key() && forall|j: int|
                        0 <= j < w ==> (#[trigger] p[j]).0 != inventory_remote_uri_key();
                assert(p[i as int].0 == inventory_remote_uri_key());
                if w < i {
                    assert(p[w].0 != inventory_remote_uri_key());
                } else if w > i {
                    assert(p[i as int].0 != inventory_remote_uri_key());
                }
                assert(w == i);
                assert(p[i as int].1 == m.metadata@[i as int].1@);
            }
            if m.metadata[i].1.as_str().unicode_len() > 0 {
                return Some(m.metadata[i].1.clone());
            } else {
                return None;
            }
        }
        i = i + 1;
    }
    None
}

/// A download URL request that named a content version and failed with a
/// batch error (the version may be stale) is retried once without it.
pub fn retry_without_entity(entity_sent: bool, batch_error: bool) -> (r: bool)
    ensures
        r == (entity_sent && batch_error),
{
    entity_sent && batch_error
}

/// Whether a character has the Unicode `White_Space` property (what
/// `char::is_whitespace` tests).
pub open spec fn is_white_space(c: char) -> bool {
    let u = c as u32;
    ||| 0x09 <= u <= 0x0d
    ||| u == 0x20
    ||| u == 0x85
    ||| u == 0xa0
    ||| u == 0x1680
    ||| 0x2000 <= u <= 0x200a
    ||| u == 0x2028
    ||| u == 0x2029
    ||| u == 0x202f
    ||| u == 0x205f
    ||| u == 0x3000
}

/// The text without its leading white space.
pub open spec fn trim_start_text(s: Seq<char>) -> Seq<char>
    decreases s.len(),
{
    if s.len() > 0 && is_white_space(s[0]) {
        trim_start_text(s.drop_first())
    } else {
        s
    }
}

/// The text without its trailing white space.
pub open spec fn trim_end_text(s: Seq<char>) -> Seq<char>
    decreases s.len(),
{
    if s.len() > 0 && is_white_space(s.last()) {
        trim_end_text(s.drop_last())
    } else {
        s
    }
}

/// The text without leading and trailing white space (what `str::trim`
/// gives).
pub open spec fn spec_trim(s: Seq<char>) -> Seq<char> {
    trim_end_text(trim_start_text(s))
}

proof fn lemma_trim_start_at(s: Seq<char>, a: int)
    requires
        0 <= a <= s.len(),
        forall|k: int| 0 <= k < a ==> is_white_space(#[trigger] s[k]),
        a < s.len() ==> !is_white_space(s[a]),
    ensures
        trim_start_text(s) == s.subrange(a, s.len() as int),
    decreases a,
{
    if a == 0 {
        assert(s.subrange(0, s.len() as int) =~= s);
    } else {
        let t = s.drop_first();
        assert forall|k: int| 0 <= k < a - 1 implies is_white_space(#[trigger] t[k]) by {
            assert(t[k] == s[k + 1]);
        }
        assert(is_white_space(s[0]));
        lemma_trim_start_at(t, a - 1);
        assert(t.subrange(a - 1, t.len() as int) =~= s.subrange(a, s.len() as int));
    }
}

proof fn lemma_trim_end_at(s: Seq<char>, b: int)
    requires
        0 <= b <= s.len(),
        forall|k: int| b <= k < s.len() ==> is_white_space(#[trigger] s[k]),
        b > 0 ==> !is_white_space(s[b - 1]),
    ensures
        trim_end_text(s) == s.subrange(0, b),
    decreases s.len() - b,
{
    if b == s.len() {
        assert(s.subrange(0, b) =~= s);
    } else {
        let t = s.drop_last();
        assert forall|k: int| b <= k < t.len() implies is_white_space(#[trigger] t[k]) by {
            assert(t[k] == s[k]);
        }
        assert(is_white_space(s.last()));
        lemma_trim_end_at(t, b);
        assert(t.subrange(0, b) =~= s.subrange(0, b));
    }
}

fn white_space(c: char) -> (r: bool)
    ensures
        r == is_white_space(c),
{
    let u = c as u32;
    (0x09 <= u && u <= 0x0d) || u == 0x20 || u == 0x85 || u == 0xa0 || u == 0x1680 || (0x2000 <= u && u
        <= 0x200a) || u == 0x2028 || u == 0x2029 || u == 0x202f || u == 0x205f || u == 0x3000
}

/// The text without leading and trailing white space.
fn trimmed(s: &str) -> (r: String)
    ensures
        r@ == spec_trim(s@),
{
    let n = s.unicode_len();
    let mut a: usize = 0;
    while a < n && white_space(s.get_char(a))
        invariant
            n == s@.len(),
            a <= n,
            forall|k: int| 0 <= k < a ==> is_white_space(#[trigger] s@[k]),
        decreases n - a,
    {
        a = a + 1;
    }
    proof {
        lemma_trim_start_at(s@, a as int);
    }
    let ghost t = s@.subrange(a as int, n as int);
    let mut b: usize = n;
    while b > a && white_space(s.get_char(b - 1))
        invariant
            n == s@.len(),
            a <= b <= n,
            t == s@.subrange(a as int, n as int),
            forall|k: int| b <= k < n ==> is_white_space(#[trigger] s@[k]),
        decreases b,
    {
        b = b - 1;
    }
    proof {
        assert forall|k: int| b - a <= k < t.len() implies is_white_space(#[trigger] t[k]) by {
            assert(t[k] == s@[k + a]);
        }
        if b > a {
            assert(t[b - a - 1] == s@[b - 1]);
        }
        lemma_trim_end_at(t, (b - a) as int);
        assert(t.subrange(0, (b - a) as int) =~= s@.subrange(a as int, b as int));
    }
    let mut out = String::new();
    let mut i: usize = a;
    while i < b
        invariant
            n == s@.len(),
            a <= i <= b <= n,
            out@ == s@.subrange(a as int, i as int),
        decreases b - i,
    {
        out.push(s.get_char(i));
        assert(s@.subrange(a as int, i + 1) =~= s@.subrange(a as int, i as int).push(s@[i as int]));
        i = i + 1;
    }
    out
}

/// The segments collected so far and the segment being read.
pub open spec fn segment_state(s: Seq<char>) -> (Seq<Seq<char>>, Seq<char>)
    decreases s.len(),
{
    if s.len() == 0 {
        (Seq::empty(), Seq::empty())
    } else {
        let (done, cur) = segment_state(s.drop_last());
        if s.last() == '/' {
            (if cur.len() > 0 { done.push(cur) } else { done }, Seq::empty())
        } else {
            (done, cur.push(s.last()))
        }
    }
}

/// The non-empty pieces between slashes.
pub open spec fn slash_segments(s: Seq<char>) -> Seq<Seq<char>> {
    let (done, cur) = segment_state(s);
    if cur.len() > 0 {
        done.push(cur)
    } else {
        done
    }
}

/// The segments joined one after another onto `base`.
pub open spec fn joined_segments(base: Seq<char>, segs: Seq<Seq<char>>) -> Seq<char>
    decreases segs.len(),
{
    if segs.len() == 0 {
        base
    } else {
        spec_path_join(joined_segments(base, segs.drop_last()), segs.last())
    }
}

/// Where a path named by a server change event lies.
#[derive(Debug, Clone)]
pub enum RemoteEventPath {
    /// A full Cloudreve URI, to map with the mount's remote base.
    FullUri(String),
    /// A path relative to the subscribed mount, mapped below the sync root.
    Local(String),
}

pub enum RemoteEventPathView {
    FullUri(Seq<char>),
    Local(Seq<char>),
    Fail(Seq<char>),
}

pub open spec fn remote_event_path_view(r: Result<RemoteEventPath, String>) -> RemoteEventPathView {
    match r {
        Ok(RemoteEventPath::FullUri(u)) => RemoteEventPathView::FullUri(u@),
        Ok(RemoteEventPath::Local(p)) => RemoteEventPathView::Local(p@),
        Err(e) => RemoteEventPathView::Fail(e@),
    }
}

/// A field of a change event: trimmed, it is refused when empty, taken as a
/// URI when it starts with `cloudreve://`, and otherwise its slash-separated
/// segments are joined below the sync root.
pub open spec fn remote_event_path_spec(sync_root: Seq<char>, field: Seq<char>) -> RemoteEventPathView {
    let f = spec_trim(field);
    if f.len() == 0 {
        RemoteEventPathView::Fail("empty remote file event path"@)
    } else if "cloudreve://"@.len() <= f.len() && f.subrange(0, "cloudreve://"@.len() as int) == "cloudreve://"@ {
        RemoteEventPathView::FullUri(f)
    } else {
        RemoteEventPathView::Local(spec_path_join(sync_root, joined_segments(""@, slash_segments(f))))
    }
}

fn starts_with_uri_scheme(s: &str) -> (r: bool)
    ensures
        r == ("cloudreve://"@.len() <= s@.len() && s@.subrange(0, "cloudreve://"@.len() as int) == "cloudreve://"@),
{
    let prefix = "cloudreve://";
    proof {
        reveal_strlit("cloudreve://");
    }
    let n = s.unicode_len();
    let m = prefix.unicode_len();
    if m > n {
        return false;
    }
    let mut i: usize = 0;
    while i < m
        invariant
            m == prefix@.len(),
            n == s@.len(),
            m <= n,
            i <= m,
            prefix@ == "cloudreve://"@,
            forall|k: int| 0 <= k < i ==> s@[k] == prefix@[k],
        decreases m - i,
    {
        if s.get_char(i) != prefix.get_char(i) {
            assert(s@.subrange(0, m as int)[i as int] != prefix@[i as int]);
            return false;
        }
        i = i + 1;
    }
    assert(s@.subrange(0, m as int) =~= prefix@);
    true
}

fn segments_of(s: &str) -> (r: Vec<String>)
    ensures
        crate::sync_run::strings_view(r@) == slash_segments(s@),
{
    let n = s.unicode_len();
    let mut done: Vec<String> = Vec::new();
    let mut cur = String::new();
    let mut i: usize = 0;
    while i < n
        invariant
            n == s@.len(),
            i <= n,
            (crate::sync_run::strings_view(done@), cur@) == segment_state(s@.subrange(0, i as int)),
        decreases n - i,
    {
        let ghost pre = s@.subrange(0, i as int);
        let ghost post = s@.subrange(0, i + 1);
        assert(post.drop_last() =~= pre);
        let c = s.get_char(i);
        if c == '/' {
            if cur.as_str().unicode_len() > 0 {
                let ghost old_done = done@;
                let mut taken = String::new();
                std::mem::swap(&mut taken, &mut cur);
                done.push(taken);
                proof {
                    crate::sync_run::lemma_strings_view_push(old_done, taken);
                }
            } else {
                cur = String::new();
            }
        } else {
            cur.push(c);
        }
        i = i + 1;
    }
    assert(s@.subrange(0, n as int) =~= s@);
    if cur.as_str().unicode_len() > 0 {
        let ghost old_done = done@;
        let c2 = cur;
        done.push(c2);
        proof {
            crate::sync_run::lemma_strings_view_push(old_done, c2);
        }
    }
    done
}

/// Maps a path named by a server change event (see [`remote_event_path_spec`]).
pub fn local_path_from_remote_file_event_field(sync_root: &str, field: &str) -> (r: Result<RemoteEventPath, String>)
    ensures
        remote_event_path_view(r) == remote_event_path_spec(sync_root@, field@),
{
    let f = trimmed(field);
    if f.as_str().unicode_len() == 0 {
        let mut msg = String::new();
        push_str(&mut msg, "empty remote file event path");
        return Err(msg);
    }
    if starts_with_uri_scheme(f.as_str()) {
        return Ok(RemoteEventPath::FullUri(f));
    }
    let segs = segments_of(f.as_str());
    let mut rel = String::new();
    let mut i: usize = 0;
    proof {
        reveal_strlit("");
    }
    while i < segs.len()
        invariant
            i <= segs@.len(),
            rel@ == joined_segments(""@, crate::sync_run::strings_view(segs@).subrange(0, i as int)),
        decreases segs.len() - i,
    {
        let ghost pre = crate::sync_run::strings_view(segs@).subrange(0, i as int);
        let ghost post = crate::sync_run::strings_view(segs@).subrange(0, i + 1);
        assert(post.drop_last() =~= pre);
        rel = path_join(rel.as_str(), segs[i].as_str());
        i = i + 1;
    }
    assert(crate::sync_run::strings_view(segs@).subrange(0, segs@.len() as int) =~= crate::sync_run::strings_view(
        segs@,
    ));
    Ok(RemoteEventPath::Local(path_join(sync_root, rel.as_str())))
}

/// The local path of a remote URI's path part below the mount's remote
/// base path, under the sync root.
pub fn local_path_from_uri_paths(sync_root: &str, uri_path: &str, base_path: &str, separator: char) -> (r:
    Result<String, String>)
    ensures
        match relative_under_base(uri_path@, base_path@, separator) {
            Some(rel) => r is Ok && r->Ok_0@ == spec_path_join(sync_root@, rel),
            None => r is Err && r->Err_0@ == "Path is not under remote base"@,
        },
{
    let rel = remote_path_to_local_relative_path(uri_path, base_path, separator)?;
    Ok(path_join(sync_root, rel.as_str()))
}

} // verus!
