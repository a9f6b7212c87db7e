//! The decisions of the macOS integration: which virtual file mode is active,
//! mount identifiers, notification gating and throttling, the texts handed
//! to `osascript` and `launchd`, and the placeholder markers kept beside a
//! mount.

use vstd::prelude::*;
use std::collections::hash_map::DefaultHasher;
use std::hash::{Hash, Hasher};
use sha2::Digest;
use vstd::string::StringSliceAdditionalSpecFns;
use vstd::std_specs::hash::DefaultHasherAdditionalSpecFns;
use crate::config::ConfigManager;
use crate::paths::{path_join, spec_path_join};
use crate::platform::{
    DesktopIntegrationCapabilities, LocalAvailability, PlatformCapabilities, PlatformKind,
    VirtualFileMode, VirtualFileState,
};
use crate::text::{
    ascii_lower, ascii_lowercase, hex_bytes, hex_fixed, push_hex_fixed, push_signed_decimal,
    push_str, signed_decimal, str_eq, bytes_to_hex,
};

verus! {

/// How long the same notification stays suppressed, in milliseconds.
pub const NOTIFICATION_COOLDOWN_MS: u64 = 15_000;

/// Whether a value of the file-provider switch turns the integration on:
/// `1`, `true`, `yes` or `on`, in any ASCII case.
pub open spec fn fpe_switch_on(value: Seq<char>) -> bool {
    let v = ascii_lower(value);
    v == "1"@ || v == "true"@ || v == "yes"@ || v == "on"@
}

/// Whether the file-provider IPC is enabled by the switch's value (absent
/// means off).
pub fn macos_fpe_ipc_enabled(value: Option<&str>) -> (r: bool)
    ensures
        r == match value {
            Some(v) => fpe_switch_on(v@),
            None => false,
        },
{
    match value {
        Some(v) => {
            let lowered = ascii_lowercase(v);
            let l = lowered.as_str();
            str_eq(l, "1") || str_eq(l, "true") || str_eq(l, "yes") || str_eq(l, "on")
        },
        None => false,
    }
}

/// The virtual file mode: the file provider only on macOS with the switch
/// on; plain files otherwise.
pub open spec fn macos_mode_spec(is_macos: bool, value: Option<Seq<char>>) -> VirtualFileMode {
    if is_macos && match value {
        Some(v) => fpe_switch_on(v),
        None => false,
    } {
        VirtualFileMode::FileProvider
    } else {
        VirtualFileMode::Plain
    }
}

/// The view of an optional string slice.
pub open spec fn opt_str_view(value: Option<&str>) -> Option<Seq<char>> {
    match value {
        Some(v) => Some(v@),
        None => None,
    }
}

pub fn macos_virtual_file_mode(is_macos: bool, value: Option<&str>) -> (r: VirtualFileMode)
    ensures
        r == macos_mode_spec(is_macos, opt_str_view(value)),
{
    if is_macos && macos_fpe_ipc_enabled(value) {
        VirtualFileMode::FileProvider
    } else {
        VirtualFileMode::Plain
    }
}

/// The macOS platform integration, as far as it decides: the build target
/// and the file-provider switch fix its behaviour.
#[derive(Debug, Clone, Copy)]
pub struct MacosPlatformProvider {
    is_macos: bool,
    fpe_enabled: bool,
}

/// `"macos-local-"` followed by the hash as 16 lowercase hex digits.
pub open spec fn mount_id_text(hash: u64) -> Seq<char> {
    "macos-local-"@ + hex_fixed(hash as nat, 16)
}

/// What `<str as Hash>::hash` writes into a hasher for a string.
pub uninterp spec fn spec_str_hash_writes(s: Seq<char>) -> Seq<Seq<u8>>;

/// What `<Path as Hash>::hash` writes into a hasher for a path.
pub uninterp spec fn spec_path_hash_writes(p: Seq<char>) -> Seq<Seq<u8>>;

/// `<str as Hash>::hash` on a `DefaultHasher`: the writes it adds depend on
/// the string alone (which bytes they are is left unsaid).
#[verifier::external_body]
fn hash_str_into(hasher: &mut DefaultHasher, value: &str)
    ensures
        final(hasher)@ == old(hasher)@ + spec_str_hash_writes(value@),
{
    value.hash(hasher)
}

/// `<Path as Hash>::hash` on a `DefaultHasher`: the writes it adds depend on
/// the path alone (which bytes they are is left unsaid).
#[verifier::external_body]
fn hash_path_into(hasher: &mut DefaultHasher, path: &str)
    ensures
        final(hasher)@ == old(hasher)@ + spec_path_hash_writes(path@),
{
    std::path::Path::new(path).hash(hasher)
}

/// The `DefaultHasher` hash of the instance URL, the user and the sync path,
/// hashed in that order.
pub open spec fn mount_hash(instance_url: Seq<char>, user_id: Seq<char>, sync_path: Seq<char>) -> u64 {
    DefaultHasher::spec_finish(
        spec_str_hash_writes(instance_url) + spec_str_hash_writes(user_id) + spec_path_hash_writes(sync_path),
    )
}

/// The identifier of a local mount: `macos-local-` and the 64-bit
/// `DefaultHasher` hash of the instance URL, the user and the sync path. The
/// same three inputs always give the same identifier.
pub fn hash_mount_id(instance_url: &str, user_id: &str, sync_path: &str) -> (r: String)
    ensures
        r@ == mount_id_text(mount_hash(instance_url@, user_id@, sync_path@)),
{
    let mut hasher = DefaultHasher::new();
    hash_str_into(&mut hasher, instance_url);
    hash_str_into(&mut hasher, user_id);
    hash_path_into(&mut hasher, sync_path);
    assert(hasher@ =~= spec_str_hash_writes(instance_url@) + spec_str_hash_writes(user_id@)
        + spec_path_hash_writes(sync_path@));
    let h = hasher.finish();
    mount_id_from_hash(h)
}

/// The identifier text for a given hash.
pub fn mount_id_from_hash(hash: u64) -> (r: String)
    ensures
        r@ == mount_id_text(hash),
{
    let mut out = String::new();
    push_str(&mut out, "macos-local-");
    push_hex_fixed(&mut out, hash, 16);
    out
}

impl MacosPlatformProvider {
    /// Whether the build targets macOS.
    pub closed spec fn on_macos(&self) -> bool {
        self.is_macos
    }

    /// Whether the file-provider switch is on.
    pub closed spec fn fpe_on(&self) -> bool {
        self.fpe_enabled
    }

    /// The integration for a build target and a value of the switch.
    pub fn new(is_macos: bool, fpe_switch: Option<&str>) -> (r: Self)
        ensures
            r.on_macos() == is_macos,
            r.fpe_on() == match fpe_switch {
                Some(v) => fpe_switch_on(v@),
                None => false,
            },
    {
        MacosPlatformProvider { is_macos, fpe_enabled: macos_fpe_ipc_enabled(fpe_switch) }
    }

    /// Whether mounts talk to the file provider over IPC.
    pub fn fpe_ipc_enabled(&self) -> (r: bool)
        ensures
            r == self.fpe_on(),
    {
        self.fpe_enabled
    }

    pub fn mode(&self) -> (r: VirtualFileMode)
        ensures
            r == (if self.on_macos() && self.fpe_on() {
                VirtualFileMode::FileProvider
            } else {
                VirtualFileMode::Plain
            }),
    {
        if self.is_macos && self.fpe_enabled {
            VirtualFileMode::FileProvider
        } else {
            VirtualFileMode::Plain
        }
    }

    pub fn capabilities(&self) -> (r: PlatformCapabilities)
        ensures
            r.platform == PlatformKind::Macos,
            r.virtual_file_mode == (if self.on_macos() && self.fpe_on() {
                VirtualFileMode::FileProvider
            } else {
                VirtualFileMode::Plain
            }),
            r.sync_root_registration == self.on_macos(),
            r.auto_start,
            r.desktop_integration == (DesktopIntegrationCapabilities {
                notifications: true,
                status_ui: false,
                file_manager_reveal: true,
            }),
    {
        PlatformCapabilities {
            platform: PlatformKind::Macos,
            virtual_file_mode: self.mode(),
            sync_root_registration: self.is_macos,
            auto_start: true,
            desktop_integration: DesktopIntegrationCapabilities {
                notifications: true,
                status_ui: false,
                file_manager_reveal: true,
            },
        }
    }

    pub fn is_supported(&self) -> (r: Result<bool, String>)
        ensures
            r == Ok::<bool, String>(self.on_macos()),
    {
        Ok(self.is_macos)
    }

    pub fn ensure_mount_id(&self, instance_url: &str, user_id: &str, sync_path: &str) -> (r: Result<
        String,
        String,
    >)
        ensures
            r is Ok,
            r->Ok_0@ == mount_id_text(mount_hash(instance_url@, user_id@, sync_path@)),
    {
        Ok(hash_mount_id(instance_url, user_id, sync_path))
    }
}

/// When each notification key was last let through; keys are distinct.
#[derive(Debug)]
pub struct NotificationRegistry {
    entries: Vec<(String, u64)>,
}

/// No key occurs twice.
pub open spec fn keys_unique(s: Seq<(String, u64)>) -> bool {
    forall|i: int, j: int| 0 <= i < j < s.len() ==> (#[trigger] s[i]).0@ != (#[trigger] s[j]).0@
}

/// The time recorded for `key`, if any.
pub open spec fn recorded_time(s: Seq<(String, u64)>, key: Seq<char>) -> Option<u64> {
    if exists|i: int| 0 <= i < s.len() && (#[trigger] s[i]).0@ == key {
        Some(s[choose|i: int| 0 <= i < s.len() && (#[trigger] s[i]).0@ == key].1)
    } else {
        None
    }
}

/// Whether a notification last let through at `last` is still cooling down
/// at `now`; a clock that went backwards counts as no time elapsed.
pub open spec fn within_cooldown(last: Option<u64>, now: u64, cooldown: u64) -> bool {
    match last {
        Some(t) => (if now >= t { now - t } else { 0 }) < cooldown,
        None => false,
    }
}

proof fn lemma_recorded_at(s: Seq<(String, u64)>, i: int)
    requires
        keys_unique(s),
        0 <= i < s.len(),
    ensures
        recorded_time(s, s[i].0@) == Some(s[i].1),
{
    let key = s[i].0@;
    assert(s[i].0@ == key);
    let j = choose|j: int| 0 <= j < s.len() && (#[trigger] s[j]).0@ == key;
    if j != i {
        if j < i {
            assert(s[j].0@ != s[i].0@);
        } else {
            assert(s[i].0@ != s[j].0@);
        }
    }
}

impl NotificationRegistry {
    #[verifier::type_invariant]
    spec fn distinct_keys(&self) -> bool {
        keys_unique(self.entries@)
    }

    /// When `key` was last let through, if ever.
    pub closed spec fn last_sent(&self, key: Seq<char>) -> Option<u64> {
        recorded_time(self.entries@, key)
    }

    pub fn new() -> (r: Self)
        ensures
            forall|key: Seq<char>| r.last_sent(key) is None,
    {
        NotificationRegistry { entries: Vec::new() }
    }

    fn find(&self, key: &str) -> (r: Option<usize>)
        ensures
            match r {
                Some(i) => i < self.entries@.len() && self.entries@[i as int].0@ == key@,
                None => forall|i: int| 0 <= i < self.entries@.len() ==> (#[trigger] self.entries@[i]).0@ != key@,
            },
    {
        let mut i: usize = 0;
        while i < self.entries.len()
            invariant
                i <= self.entries@.len(),
                forall|j: int| 0 <= j < i ==> (#[trigger] self.entries@[j]).0@ != key@,
            decreases self.entries.len() - i,
        {
            if str_eq(self.entries[i].0.as_str(), key) {
                return Some(i);
            }
            i = i + 1;
        }
        None
    }

    /// Whether a notification under `key` at time `now` (milliseconds of a
    /// monotonic clock) is suppressed because the same key was let through
    /// less than `cooldown` ago. A notification let through is recorded.
    pub fn should_throttle_notification(&mut self, key: &str, now: u64, cooldown: u64) -> (r: bool)
        ensures
            r == within_cooldown(old(self).last_sent(key@), now, cooldown),
            r ==> forall|k: Seq<char>| final(self).last_sent(k) == old(self).last_sent(k),
            !r ==> final(self).last_sent(key@) == Some(now),
            !r ==> forall|k: Seq<char>|
                k != key@ ==> final(self).last_sent(k) == old(self).last_sent(k),
    {
        proof {
            use_type_invariant(&*self);
        }
        match self.find(key) {
            Some(i) => {
                let last = self.entries[i].1;
                proof {
                    lemma_recorded_at(self.entries@, i as int);
                }
                let elapsed = if now >= last { now - last } else { 0 };
                if elapsed < cooldown {
                    return true;
                }
                let ghost before = self.entries@;
                let mut entries = Vec::new();
                std::mem::swap(&mut entries, &mut self.entries);
                let name = entries[i].0.clone();
                entries.set(i, (name, now));
                proof {
                    let after = entries@;
                    assert(keys_unique(after)) by {
                        assert forall|a: int, b: int| 0 <= a < b < after.len() implies (
                        #[trigger] after[a]).0@ != (#[trigger] after[b]).0@ by {
                            assert(before[a].0@ != before[b].0@);
                        }
                    }
                    lemma_recorded_at(after, i as int);
                    assert forall|k: Seq<char>| k != key@ implies recorded_time(after, k)
                        == recorded_time(before, k) by {
                        if exists|j: int| 0 <= j < before.len() && (#[trigger] before[j]).0@ == k {
                            let j = choose|j: int| 0 <= j < before.len() && (#[trigger] before[j]).0@ == k;
                            lemma_recorded_at(before, j);
                            assert(after[j] == before[j]);
                            lemma_recorded_at(after, j);
                        } else {
                            assert forall|j: int| 0 <= j < after.len() implies (#[trigger] after[j]).0@
                                != k by {
                                assert(before[j].0@ != k);
                            }
                        }
                    }
                }
                self.entries = entries;
                false
            },
            None => {
                let ghost before = self.entries@;
                let mut entries = Vec::new();
                std::mem::swap(&mut entries, &mut self.entries);
                entries.push((key.to_owned(), now));
                proof {
                    let after = entries@;
                    let n = before.len() as int;
                    assert(keys_unique(after)) by {
                        assert forall|a: int, b: int| 0 <= a < b < after.len() implies (
                        #[trigger] after[a]).0@ != (#[trigger] after[b]).0@ by {
                            if b == n {
                                assert(before[a].0@ != key@);
                            } else {
                                assert(before[a].0@ != before[b].0@);
                            }
                        }
                    }
                    lemma_recorded_at(after, n);
                    assert(after[n].0@ == key@);
                    assert forall|k: Seq<char>| k != key@ implies recorded_time(after, k)
                        == recorded_time(before, k) by {
                        if exists|j: int| 0 <= j < before.len() && (#[trigger] before[j]).0@ == k {
                            let j = choose|j: int| 0 <= j < before.len() && (#[trigger] before[j]).0@ == k;
                            lemma_recorded_at(before, j);
                            assert(after[j] == before[j]);
                            lemma_recorded_at(after, j);
                        } else {
                            assert forall|j: int| 0 <= j < after.len() implies (#[trigger] after[j]).0@
                                != k by {
                                if j < n {
                                    assert(before[j].0@ != k);
                                }
                            }
                        }
                    }
                }
                self.entries = entries;
                false
            },
        }
    }
}

/// Once a key is let through at `sent`, the same key is suppressed at any
/// later time before the cooldown has elapsed.
pub proof fn lemma_throttle_blocks_within_cooldown(sent: u64, later: u64, cooldown: u64)
    requires
        sent <= later,
        later - sent < cooldown,
    ensures
        within_cooldown(Some(sent), later, cooldown),
{
}

/// Once the cooldown has elapsed the key is let through again.
pub proof fn lemma_throttle_releases_after_cooldown(sent: u64, later: u64, cooldown: u64)
    requires
        sent <= later,
        later - sent >= cooldown,
    ensures
        !within_cooldown(Some(sent), later, cooldown),
{
}

/// Whether conflict and general notifications are wanted: the setting, or
/// `true` before any configuration is loaded.
pub fn should_notify_file_conflict(config: Option<&ConfigManager>) -> (r: bool)
    ensures
        r == match config {
            Some(c) => c.current().notify_file_conflict,
            None => true,
        },
{
    match config {
        Some(c) => c.notify_file_conflict(),
        None => true,
    }
}

/// Whether credential-expiry notifications are wanted: the setting, or
/// `true` before any configuration is loaded.
pub fn should_notify_credential_expired(config: Option<&ConfigManager>) -> (r: bool)
    ensures
        r == match config {
            Some(c) => c.current().notify_credential_expired,
            None => true,
        },
{
    match config {
        Some(c) => c.notify_credential_expired(),
        None => true,
    }
}

/// Whether a notification is shown: it must be wanted and not throttled.
/// An unwanted notification leaves the registry untouched.
pub fn admit_notification(
    registry: &mut NotificationRegistry,
    wanted: bool,
    key: &str,
    now: u64,
) -> (r: bool)
    ensures
        !wanted ==> !r && forall|k: Seq<char>| final(registry).last_sent(k) == old(registry).last_sent(k),
        wanted ==> r == !within_cooldown(old(registry).last_sent(key@), now, NOTIFICATION_COOLDOWN_MS),
        wanted && r ==> final(registry).last_sent(key@) == Some(now),
        wanted && r ==> forall|k: Seq<char>|
            k != key@ ==> final(registry).last_sent(k) == old(registry).last_sent(k),
        wanted && !r ==> forall|k: Seq<char>| final(registry).last_sent(k) == old(registry).last_sent(k),
{
    if !wanted {
        return false;
    }
    !registry.should_throttle_notification(key, now, NOTIFICATION_COOLDOWN_MS)
}

/// Throttle key of a general notification.
pub open spec fn general_key_text(title: Seq<char>, message: Seq<char>) -> Seq<char> {
    "general:"@ + title + ":"@ + message
}

pub fn general_notification_key(title: &str, message: &str) -> (r: String)
    ensures
        r@ == general_key_text(title@, message@),
{
    let mut out = String::new();
    push_str(&mut out, "general:");
    push_str(&mut out, title);
    push_str(&mut out, ":");
    push_str(&mut out, message);
    out
}

/// Throttle key of a credential-expiry notification.
pub fn token_expiry_notification_key(drive_id: &str) -> (r: String)
    ensures
        r@ == "token-expiry:"@ + drive_id@,
{
    let mut out = String::new();
    push_str(&mut out, "token-expiry:");
    push_str(&mut out, drive_id);
    out
}

/// Throttle key of a conflict notification.
pub fn conflict_notification_key(drive_id: &str, path: &str, inventory_id: i64) -> (r: String)
    ensures
        r@ == "conflict:"@ + drive_id@ + ":"@ + path@ + ":"@ + signed_decimal(inventory_id as int),
{
    let mut out = String::new();
    push_str(&mut out, "conflict:");
    push_str(&mut out, drive_id);
    push_str(&mut out, ":");
    push_str(&mut out, path);
    push_str(&mut out, ":");
    push_signed_decimal(&mut out, inventory_id);
    out
}

/// Body of a conflict notification: the path and the inventory id.
pub fn conflict_notification_message(path: &str, inventory_id: i64) -> (r: String)
    ensures
        r@ == path@ + " ("@ + signed_decimal(inventory_id as int) + ")"@,
{
    let mut out = String::new();
    push_str(&mut out, path);
    push_str(&mut out, " (");
    push_signed_decimal(&mut out, inventory_id);
    push_str(&mut out, ")");
    out
}

/// AppleScript string escaping of one character.
pub open spec fn applescript_escape_char(c: char) -> Seq<char> {
    if c == '\\' {
        seq!['\\', '\\']
    } else if c == '"' {
        seq!['\\', '"']
    } else {
        seq![c]
    }
}

/// AppleScript string escaping: backslashes and double quotes get a
/// backslash in front.
pub open spec fn applescript_escape(s: Seq<char>) -> Seq<char>
    decreases s.len(),
{
    if s.len() == 0 {
        Seq::empty()
    } else {
        applescript_escape(s.drop_last()) + applescript_escape_char(s.last())
    }
}

/// XML escaping of one character for a property list.
pub open spec fn plist_escape_char(c: char) -> Seq<char> {
    if c == '&' {
        "&amp;"@
    } else if c == '<' {
        "&lt;"@
    } else if c == '>' {
        "&gt;"@
    } else if c == '"' {
        "&quot;"@
    } else if c == '\'' {
        "&apos;"@
    } else {
        seq![c]
    }
}

/// XML escaping of a whole string for a property list.
pub open spec fn plist_escape(s: Seq<char>) -> Seq<char>
    decreases s.len(),
{
    if s.len() == 0 {
        Seq::empty()
    } else {
        plist_escape(s.drop_last()) + plist_escape_char(s.last())
    }
}

fn push_escaped_plist_char(out: &mut String, c: char)
    ensures
        final(out)@ == old(out)@ + plist_escape_char(c),
{
    proof {
        reveal_strlit("&amp;");
        reveal_strlit("&lt;");
        reveal_strlit("&gt;");
        reveal_strlit("&quot;");
        reveal_strlit("&apos;");
    }
    if c == '&' {
        push_str(out, "&amp;");
    } else if c == '<' {
        push_str(out, "&lt;");
    } else if c == '>' {
        push_str(out, "&gt;");
    } else if c == '"' {
        push_str(out, "&quot;");
    } else if c == '\'' {
        push_str(out, "&apos;");
    } else {
        out.push(c);
        assert(final(out)@ =~= old(out)@ + seq![c]);
    }
}

/// Escapes `&`, `<`, `>`, `"` and `'` for use inside a property list.
pub fn escape_plist(value: &str) -> (r: String)
    ensures
        r@ == plist_escape(value@),
{
    let n = value.unicode_len();
    let mut out = String::new();
    let mut i: usize = 0;
    while i < n
        invariant
            n == value@.len(),
            i <= n,
            out@ == plist_escape(value@.subrange(0, i as int)),
        decreases n - i,
    {
        let c = value.get_char(i);
        push_escaped_plist_char(&mut out, c);
        proof {
            let next = value@.subrange(0, i + 1);
            assert(next.drop_last() =~= value@.subrange(0, i as int));
            assert(next.last() == c);
        }
        i = i + 1;
    }
    assert(value@.subrange(0, n as int) =~= value@);
    out
}

/// No character that XML treats specially is left bare by the escaping:
/// `<`, `>`, `"` and `'` never occur in its output.
pub proof fn lemma_plist_escape_leaves_no_markup(s: Seq<char>)
    ensures
        forall|i: int|
            0 <= i < plist_escape(s).len() ==> {
                let c = #[trigger] plist_escape(s)[i];
                c != '<' && c != '>' && c != '"' && c != '\''
            },
    decreases s.len(),
{
    reveal_strlit("&amp;");
    reveal_strlit("&lt;");
    reveal_strlit("&gt;");
    reveal_strlit("&quot;");
    reveal_strlit("&apos;");
    if s.len() > 0 {
        lemma_plist_escape_leaves_no_markup(s.drop_last());
        let prefix = plist_escape(s.drop_last());
        let tail = plist_escape_char(s.last());
        assert(plist_escape(s) == prefix + tail);
        assert forall|i: int| 0 <= i < plist_escape(s).len() implies {
            let c = #[trigger] plist_escape(s)[i];
            c != '<' && c != '>' && c != '"' && c != '\''
        } by {
            if i >= prefix.len() {
                assert(plist_escape(s)[i] == tail[i - prefix.len()]);
            } else {
                assert(plist_escape(s)[i] == prefix[i]);
            }
        }
    }
}

fn push_escaped_applescript(out: &mut String, value: &str)
    ensures
        final(out)@ == old(out)@ + applescript_escape(value@),
{
    let n = value.unicode_len();
    let mut i: usize = 0;
    let ghost start = out@;
    while i < n
        invariant
            n == value@.len(),
            i <= n,
            out@ == start + applescript_escape(value@.subrange(0, i as int)),
        decreases n - i,
    {
        let c = value.get_char(i);
        if c == '\\' {
            out.push('\\');
            out.push('\\');
        } else if c == '"' {
            out.push('\\');
            out.push('"');
        } else {
            out.push(c);
        }
        proof {
            let next = value@.subrange(0, i + 1);
            assert(next.drop_last() =~= value@.subrange(0, i as int));
            assert(next.last() == c);
            assert(out@ =~= start + applescript_escape(next));
        }
        i = i + 1;
    }
    assert(value@.subrange(0, n as int) =~= value@);
}

/// The AppleScript that shows a notification.
pub open spec fn notification_script_text(
    title: Seq<char>,
    message: Seq<char>,
    subtitle: Option<Seq<char>>,
) -> Seq<char> {
    let base = "display notification \""@ + applescript_escape(message) + "\" with title \""@
        + applescript_escape(title) + "\""@;
    match subtitle {
        Some(s) => base + " subtitle \""@ + applescript_escape(s) + "\""@,
        None => base,
    }
}

/// The script passed to `osascript -e` for a notification.
pub fn notification_script(title: &str, message: &str, subtitle: Option<&str>) -> (r: String)
    ensures
        r@ == notification_script_text(title@, message@, opt_str_view(subtitle)),
{
    let mut out = String::new();
    push_str(&mut out, "display notification \"");
    push_escaped_applescript(&mut out, message);
    push_str(&mut out, "\" with title \"");
    push_escaped_applescript(&mut out, title);
    push_str(&mut out, "\"");
    match subtitle {
        Some(s) => {
            push_str(&mut out, " subtitle \"");
            push_escaped_applescript(&mut out, s);
            push_str(&mut out, "\"");
        },
        None => {},
    }
    out
}

/// `~/Library/LaunchAgents/xyz.cloudreve.desktop.plist`.
pub open spec fn launch_agent_plist_path_text(home: Seq<char>) -> Seq<char> {
    spec_path_join(
        spec_path_join(spec_path_join(home, "Library"@), "LaunchAgents"@),
        "xyz.cloudreve.desktop.plist"@,
    )
}

/// Where the launch agent that starts the app at login is written.
pub fn launch_agent_plist_path(home: &str) -> (r: String)
    ensures
        r@ == launch_agent_plist_path_text(home@),
{
    let lib = path_join(home, "Library");
    let agents = path_join(lib.as_str(), "LaunchAgents");
    path_join(agents.as_str(), "xyz.cloudreve.desktop.plist")
}

/// The launch agent property list that runs `program` at login.
pub open spec fn launch_agent_plist_text(program: Seq<char>) -> Seq<char> {
    "<?xml version=\"1.0\" encoding=\"UTF-8\"?>\n<!DOCTYPE plist PUBLIC \"-//Apple//DTD PLIST 1.0//EN\" \"http://www.apple.com/DTDs/PropertyList-1.0.dtd\">\n<plist version=\"1.0\">\n<dict>\n  <key>Label</key>\n  <string>"@
        + "xyz.cloudreve.desktop"@
        + "</string>\n  <key>ProgramArguments</key>\n  <array>\n    <string>"@
        + plist_escape(program)
        + "</string>\n  </array>\n  <key>RunAtLoad</key>\n  <true/>\n  <key>ProcessType</key>\n  <string>Interactive</string>\n</dict>\n</plist>\n"@
}

pub fn launch_agent_plist_contents(program: &str) -> (r: String)
    ensures
        r@ == launch_agent_plist_text(program@),
{
    let mut out = String::new();
    push_str(
        &mut out,
        "<?xml version=\"1.0\" encoding=\"UTF-8\"?>\n<!DOCTYPE plist PUBLIC \"-//Apple//DTD PLIST 1.0//EN\" \"http://www.apple.com/DTDs/PropertyList-1.0.dtd\">\n<plist version=\"1.0\">\n<dict>\n  <key>Label</key>\n  <string>",
    );
    push_str(&mut out, "xyz.cloudreve.desktop");
    push_str(&mut out, "</string>\n  <key>ProgramArguments</key>\n  <array>\n    <string>");
    let escaped = escape_plist(program);
    push_str(&mut out, escaped.as_str());
    push_str(
        &mut out,
        "</string>\n  </array>\n  <key>RunAtLoad</key>\n  <true/>\n  <key>ProcessType</key>\n  <string>Interactive</string>\n</dict>\n</plist>\n",
    );
    out
}

/// SHA-256 of a byte string (FIPS 180-4).
pub uninterp spec fn spec_sha256(data: Seq<u8>) -> Seq<u8>;

/// `sha2::Sha256::digest`: the SHA-256 digest of the bytes, 32 bytes long.
#[verifier::external_body]
pub(crate) fn sha256_digest(data: &[u8]) -> (r: Vec<u8>)
    ensures
        r@ == spec_sha256(data@),
        r@.len() == 32,
{
    sha2::Sha256::digest(data).to_vec()
}

/// `~/.cloudreve/macos-file-provider/markers`.
pub open spec fn marker_dir_text(home: Seq<char>) -> Seq<char> {
    spec_path_join(
        spec_path_join(spec_path_join(home, ".cloudreve"@), "macos-file-provider"@),
        "markers"@,
    )
}

/// The marker of a path: its name is the hex SHA-256 of the path's UTF-8
/// bytes with `.marker` appended.
pub open spec fn marker_path_text(home: Seq<char>, target_bytes: Seq<u8>) -> Seq<char> {
    spec_path_join(marker_dir_text(home), hex_bytes(spec_sha256(target_bytes)) + ".marker"@)
}

pub fn placeholder_marker_base_dir(home: &str) -> (r: String)
    ensures
        r@ == marker_dir_text(home@),
{
    let a = path_join(home, ".cloudreve");
    let b = path_join(a.as_str(), "macos-file-provider");
    path_join(b.as_str(), "markers")
}

/// The file that records that `target` is a placeholder.
pub fn placeholder_marker_path(home: &str, target: &str) -> (r: String)
    ensures
        r@ == marker_path_text(home@, target.spec_bytes()),
{
    let base = placeholder_marker_base_dir(home);
    let digest = sha256_digest(target.as_bytes());
    let mut name = bytes_to_hex(digest.as_slice());
    push_str(&mut name, ".marker");
    path_join(base.as_str(), name.as_str())
}

/// What a marker file holds: `1` for in sync, `0` otherwise.
pub fn marker_contents(in_sync: bool) -> (r: Vec<u8>)
    ensures
        r@ == seq![if in_sync { 49u8 } else { 48u8 }],
{
    if in_sync {
        vec![49u8]
    } else {
        vec![48u8]
    }
}

/// Reads the in-sync flag back from a marker's contents; an unreadable or
/// empty marker means not in sync.
pub fn marker_in_sync(contents: Option<&[u8]>) -> (r: bool)
    ensures
        r == match contents {
            Some(b) => b@.len() > 0 && b@[0] == 49u8,
            None => false,
        },
{
    match contents {
        Some(b) => b.len() > 0 && b[0] == 49u8,
        None => false,
    }
}

/// Writing a marker and reading it back gives the flag that was written.
pub proof fn lemma_marker_roundtrip(in_sync: bool)
    ensures
        ({
            let b = seq![if in_sync { 49u8 } else { 48u8 }];
            (b.len() > 0 && b[0] == 49u8) == in_sync
        }),
{
}

/// What the file system reports about a path, as read by the caller.
#[derive(Debug, Clone, Copy, PartialEq, Eq, Structural)]
pub struct LocalFacts {
    pub is_dir: bool,
    pub len: u64,
    pub modified_unix: Option<i64>,
    pub children_present: bool,
    pub marker_exists: bool,
    pub marker_in_sync: bool,
}

/// The state of an existing path: a marker makes a placeholder, unless the
/// file has content (then it was hydrated) or the directory has children.
pub open spec fn local_state_spec(f: LocalFacts) -> VirtualFileState {
    let children = f.is_dir && f.children_present;
    let placeholder = f.marker_exists && !(!f.is_dir && f.len > 0) && !(f.is_dir && children);
    VirtualFileState {
        exists: true,
        is_directory: f.is_dir,
        file_size: Some(f.len),
        last_modified_unix: f.modified_unix,
        is_virtual_placeholder: placeholder,
        in_sync: f.marker_exists && f.marker_in_sync,
        partially_on_disk: false,
        local_availability: if placeholder {
            LocalAvailability::Unspecified
        } else {
            LocalAvailability::AlwaysLocal
        },
        children_present: children,
    }
}

/// The state of a path from file system facts, and whether its marker is
/// stale (a hydrated file still carrying one) and should be removed.
pub fn local_state_from_facts(facts: LocalFacts) -> (r: (VirtualFileState, bool))
    ensures
        r.0 == local_state_spec(facts),
        r.1 == (facts.marker_exists && !facts.is_dir && facts.len > 0),
{
    let is_dir = facts.is_dir;
    let children_present = is_dir && facts.children_present;
    let marker_exists = facts.marker_exists;
    let mut is_virtual_placeholder = marker_exists;
    let mut clear_marker = false;
    if marker_exists && !is_dir && facts.len > 0 {
        is_virtual_placeholder = false;
        clear_marker = true;
    }
    if is_virtual_placeholder && is_dir && children_present {
        is_virtual_placeholder = false;
    }
    let in_sync = if marker_exists {
        facts.marker_in_sync
    } else {
        false
    };
    let local_availability = if is_virtual_placeholder {
        LocalAvailability::Unspecified
    } else {
        LocalAvailability::AlwaysLocal
    };
    (
        VirtualFileState {
            exists: true,
            is_directory: is_dir,
            file_size: Some(facts.len),
            last_modified_unix: facts.modified_unix,
            is_virtual_placeholder,
            in_sync,
            partially_on_disk: false,
            local_availability,
            children_present,
        },
        clear_marker,
    )
}

/// Whether refreshing a placeholder over an existing file empties it first:
/// only a file that exists with real content and is asked to be overwritten.
pub fn upsert_truncates_existing(is_directory: bool, overwrite: bool, existing: &VirtualFileState) -> (r:
    bool)
    ensures
        r == (!is_directory && overwrite && existing.exists && !existing.is_virtual_placeholder),
{
    !is_directory && overwrite && existing.exists && !existing.is_virtual_placeholder
}

/// What happens to a path's marker.
#[derive(Debug, Clone, Copy, PartialEq, Eq, Structural)]
pub enum MarkerAction {
    Keep,
    Clear,
    Write { in_sync: bool },
}

/// Pinning a file locally drops its marker; making it online-only writes an
/// in-sync marker; `Unspecified` changes nothing.
pub fn availability_marker_action(availability: LocalAvailability) -> (r: MarkerAction)
    ensures
        r == match availability {
            LocalAvailability::AlwaysLocal => MarkerAction::Clear,
            LocalAvailability::OnlineOnly => MarkerAction::Write { in_sync: true },
            LocalAvailability::Unspecified => MarkerAction::Keep,
        },
{
    match availability {
        LocalAvailability::AlwaysLocal => MarkerAction::Clear,
        LocalAvailability::OnlineOnly => MarkerAction::Write { in_sync: true },
        LocalAvailability::Unspecified => MarkerAction::Keep,
    }
}

/// Marking a path in sync rewrites its marker only where one exists.
pub fn mark_in_sync_marker_action(marker_exists: bool, in_sync: bool) -> (r: MarkerAction)
    ensures
        r == (if marker_exists {
            MarkerAction::Write { in_sync }
        } else {
            MarkerAction::Keep
        }),
{
    if marker_exists {
        MarkerAction::Write { in_sync }
    } else {
        MarkerAction::Keep
    }
}

/// A modification time as the file-time call takes it.
#[derive(Debug, Clone, Copy, PartialEq, Eq, Structural)]
pub enum FileTimeParts {
    /// Seconds after the epoch.
    AfterEpoch { secs: i64 },
    /// Seconds before the epoch.
    BeforeEpoch { secs: u64 },
}

pub fn modified_time_parts(modified_unix: i64) -> (r: FileTimeParts)
    requires
        modified_unix != i64::MIN,
    ensures
        modified_unix >= 0 ==> r == (FileTimeParts::AfterEpoch { secs: modified_unix }),
        modified_unix < 0 ==> r == (FileTimeParts::BeforeEpoch { secs: (-modified_unix) as u64 }),
{
    if modified_unix >= 0 {
        FileTimeParts::AfterEpoch { secs: modified_unix }
    } else {
        FileTimeParts::BeforeEpoch { secs: (-modified_unix) as u64 }
    }
}

/// Hydrating a file drops its marker, so that Finder shows it synced.
pub fn hydrate_marker_action() -> (r: MarkerAction)
    ensures
        r == MarkerAction::Clear,
{
    MarkerAction::Clear
}

/// Dehydrating empties an existing regular file and restores an in-sync
/// marker.
pub fn dehydrate_plan(is_existing_file: bool) -> (r: (bool, MarkerAction))
    ensures
        r == (is_existing_file, MarkerAction::Write { in_sync: true }),
{
    (is_existing_file, MarkerAction::Write { in_sync: true })
}

} // verus!
