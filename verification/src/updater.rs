//! Automatic updates from GitHub releases. A newer installer is downloaded,
//! verified and kept for the next start, so playing is never interrupted. The
//! user can also install right away from the banner.
use vstd::prelude::*;

use sha2::Digest;

use crate::paths::join_path;
use crate::text::{chars_of, decimal, ends_with, join2, join3, parse_u32, same, slice_of, split,
    to_ascii_lower, trim, trim_prefix};

verus! {

/// The largest installer that is downloaded, in bytes.
pub const MAX_INSTALLER_BYTES: u64 = 419_430_400;

/// An installer that was downloaded and verified.
#[derive(Debug)]
pub struct PendingUpdate {
    pub version: String,
    pub installer: String,
    pub sha256: String,
    pub release_url: String,
}

impl Clone for PendingUpdate {
    fn clone(&self) -> (r: Self)
        ensures
            r == *self,
    {
        PendingUpdate {
            version: self.version.clone(),
            installer: self.installer.clone(),
            sha256: self.sha256.clone(),
            release_url: self.release_url.clone(),
        }
    }
}

/// Where installers are kept.
pub fn updates_dir(data_dir: &str) -> (r: String)
    ensures
        r@ == crate::paths::below(data_dir@, "updates"@),
{
    join_path(data_dir, "updates")
}

/// What the check found.
#[derive(Debug)]
pub enum UpdateEvent {
    /// A newer installer is being downloaded in the background.
    Downloading { version: String },
    /// The installer is on disk and verified; it runs on the next start.
    Ready(PendingUpdate),
    /// A newer version exists but this copy is portable, so only a link.
    Available { version: String, url: String },
}

impl Clone for UpdateEvent {
    fn clone(&self) -> (r: Self)
        ensures
            r == *self,
    {
        match self {
            UpdateEvent::Downloading { version } => UpdateEvent::Downloading {
                version: version.clone(),
            },
            UpdateEvent::Ready(pending) => UpdateEvent::Ready(pending.clone()),
            UpdateEvent::Available { version, url } => UpdateEvent::Available {
                version: version.clone(),
                url: url.clone(),
            },
        }
    }
}

/// The SHA-256 of bytes, in hexadecimal.
pub uninterp spec fn sha256_hex(bytes: Seq<u8>) -> Seq<char>;

/// The bytes that a hasher was fed.
pub uninterp spec fn fed(hasher: Hasher) -> Seq<u8>;

/// A SHA-256 in the making.
#[verifier::external_body]
pub struct Hasher {
    inner: sha2::Sha256,
}

/// Whether a character is a digit of a hexadecimal number in lower case.
pub open spec fn is_hex(c: char) -> bool {
    '0' <= c <= '9' || 'a' <= c <= 'f'
}

impl Hasher {
    /// `Sha256::new`: a hasher that was fed nothing.
    #[verifier::external_body]
    pub(crate) fn new() -> (r: Self)
        ensures
            fed(r) == Seq::<u8>::empty(),
    {
        Hasher { inner: sha2::Sha256::new() }
    }

    /// `Sha256::update`: feeds bytes behind those before.
    #[verifier::external_body]
    pub(crate) fn update(&mut self, bytes: &[u8])
        ensures
            fed(*final(self)) == fed(*old(self)) + bytes@,
    {
        self.inner.update(bytes);
    }

    /// `Sha256::finalize`, written in hexadecimal: the hash of everything that
    /// was fed, two digits for each of its 32 bytes.
    #[verifier::external_body]
    pub(crate) fn finish(self) -> (r: String)
        ensures
            r@ == sha256_hex(fed(self)),
            r@.len() == 64,
            forall|i: int| 0 <= i < r@.len() ==> is_hex(#[trigger] r@[i]),
    {
        format!("{:x}", self.inner.finalize())
    }
}

/// An installer on its way: what came so far.
pub struct Download {
    pub total: u64,
    pub hasher: Hasher,
}

impl Download {
    /// Whether the count is right and within the limit.
    pub open spec fn well_formed(self) -> bool {
        self.total == fed(self.hasher).len() && self.total <= MAX_INSTALLER_BYTES
    }

    /// The bytes that came.
    pub open spec fn bytes(self) -> Seq<u8> {
        fed(self.hasher)
    }

    /// Nothing came yet.
    pub fn new() -> (r: Self)
        ensures
            r.well_formed(),
            r.bytes() == Seq::<u8>::empty(),
    {
        Download { total: 0, hasher: Hasher::new() }
    }

    /// Takes over more bytes, unless the installer gets unexpectedly large.
    pub fn take(&mut self, chunk: &[u8]) -> (r: Result<(), String>)
        requires
            old(self).well_formed(),
        ensures
            final(self).well_formed(),
            match r {
                Ok(_) => final(self).bytes() == old(self).bytes() + chunk@,
                Err(text) => {
                    &&& old(self).bytes().len() + chunk@.len() > MAX_INSTALLER_BYTES
                    &&& text@ == "installer is unexpectedly large"@
                    &&& *final(self) == *old(self)
                },
            },
    {
        let room: u64 = MAX_INSTALLER_BYTES - self.total;
        let n: u64 = chunk.len() as u64;
        if n > room {
            return Err("installer is unexpectedly large".to_owned());
        }
        self.total = self.total + n;
        self.hasher.update(chunk);
        Ok(())
    }

    /// The SHA-256 of what came.
    pub fn finish(self) -> (r: String)
        ensures
            r@ == sha256_hex(self.bytes()),
            r@.len() == 64,
            forall|i: int| 0 <= i < r@.len() ==> is_hex(#[trigger] r@[i]),
    {
        self.hasher.finish()
    }
}

/// A file that is being read to be hashed.
pub struct FileDigest {
    pub hasher: Hasher,
}

impl FileDigest {
    /// The bytes that were read.
    pub open spec fn bytes(self) -> Seq<u8> {
        fed(self.hasher)
    }

    /// Nothing was read yet.
    pub fn new() -> (r: Self)
        ensures
            r.bytes() == Seq::<u8>::empty(),
    {
        FileDigest { hasher: Hasher::new() }
    }

    /// Takes over bytes that were read.
    pub fn feed(&mut self, chunk: &[u8])
        ensures
            final(self).bytes() == old(self).bytes() + chunk@,
    {
        self.hasher.update(chunk);
    }

    /// The SHA-256 of what was read.
    pub fn finish(self) -> (r: String)
        ensures
            r@ == sha256_hex(self.bytes()),
            r@.len() == 64,
            forall|i: int| 0 <= i < r@.len() ==> is_hex(#[trigger] r@[i]),
    {
        self.hasher.finish()
    }
}

/// Whether two hashes are the same, in whatever case they are written.
pub open spec fn is_same_hash(a: Seq<char>, b: Seq<char>) -> bool {
    crate::text::ascii_lower(a) == crate::text::ascii_lower(b)
}

/// Whether the hash of a file is the one that was promised. `actual` is
/// missing when the file could not be read.
pub fn hash_matches(actual: &Option<String>, expected: &str) -> (r: bool)
    ensures
        r == (actual is Some && is_same_hash(actual->0@, expected@)),
{
    match actual {
        Some(hash) => same(
            to_ascii_lower(hash.as_str()).as_str(),
            to_ascii_lower(expected).as_str(),
        ),
        None => false,
    }
}

/// What is done with a pending installer at the start.
#[derive(Debug, Clone, Copy, PartialEq, Eq, Structural)]
pub enum PendingStep {
    /// It is stale, missing or corrupt: forget it and go on.
    Forget,
    /// Run it; the caller exits when it started.
    Launch,
}

/// What is done with a pending installer at the start: it runs if it is still
/// newer than this build and intact. `hash` is that of its file, if it could
/// be read.
pub fn pending_at_start(
    pending: &PendingUpdate,
    newer: bool,
    exists: bool,
    hash: &Option<String>,
) -> (r: PendingStep)
    ensures
        r is Launch <==> newer && exists && hash is Some && is_same_hash(
            hash->0@,
            pending.sha256@,
        ),
{
    if newer && exists && hash_matches(hash, pending.sha256.as_str()) {
        PendingStep::Launch
    } else {
        PendingStep::Forget
    }
}

/// Whether the installer of an update that the user accepted may run.
pub fn install_now(pending: &PendingUpdate, hash: &Option<String>) -> (r: Result<(), String>)
    ensures
        match r {
            Ok(_) => hash is Some && is_same_hash(hash->0@, pending.sha256@),
            Err(text) => !(hash is Some && is_same_hash(hash->0@, pending.sha256@)) && text@
                == "the downloaded installer is corrupt, it will be fetched again"@,
        },
{
    if hash_matches(hash, pending.sha256.as_str()) {
        Ok(())
    } else {
        Err("the downloaded installer is corrupt, it will be fetched again".to_owned())
    }
}

/// Why a text is no JSON, if it is none.
pub uninterp spec fn json_failure(raw: Seq<char>) -> Option<Seq<char>>;

/// `serde_json::from_str`: whether a text is JSON, and why not. The words
/// depend on the text alone.
#[verifier::external_body]
fn check_json(raw: &str) -> (r: Result<(), String>)
    ensures
        match r {
            Ok(_) => json_failure(raw@) is None,
            Err(text) => json_failure(raw@) == Some(text@),
        },
{
    let parsed: Result<serde_json::Value, serde_json::Error> = serde_json::from_str(raw);
    parsed.map(|_| ()).map_err(|e| e.to_string())
}

/// The text at a place of a JSON document, if there is one.
pub uninterp spec fn json_text_at(raw: Seq<char>, place: Seq<char>) -> Option<Seq<char>>;

/// `serde_json::Value::pointer` and `as_str`: the text at a place of a JSON
/// document. Nothing where there is no JSON, no such place or no text at it.
#[verifier::external_body]
fn json_text(raw: &str, place: &str) -> (r: Option<String>)
    ensures
        crate::engine::model::text_view(r) == json_text_at(raw@, place@),
{
    let value: serde_json::Value = serde_json::from_str(raw).ok()?;
    value.pointer(place)?.as_str().map(|s| s.to_owned())
}

/// The length of the list at a place of a JSON document, if there is one.
pub uninterp spec fn json_length_at(raw: Seq<char>, place: Seq<char>) -> Option<usize>;

/// `serde_json::Value::pointer` and `as_array`: the length of the list at a
/// place of a JSON document. Nothing where there is no JSON, no such place or
/// no list at it.
#[verifier::external_body]
fn json_length(raw: &str, place: &str) -> (r: Option<usize>)
    ensures
        r == json_length_at(raw@, place@),
{
    let value: serde_json::Value = serde_json::from_str(raw).ok()?;
    value.pointer(place)?.as_array().map(|list| list.len())
}

/// A file of a release.
#[derive(Debug)]
pub struct Asset {
    pub name: String,
    pub url: String,
}

/// A release. Its version is what its tag means.
#[derive(Debug)]
pub struct Release {
    pub tag: String,
    pub url: String,
    pub assets: Vec<Asset>,
}

/// What a file of a release says.
pub open spec fn asset_view(asset: Asset) -> (Seq<char>, Seq<char>) {
    (asset.name@, asset.url@)
}

/// What the files of a release say.
pub open spec fn asset_views(assets: Seq<Asset>) -> Seq<(Seq<char>, Seq<char>)> {
    assets.map_values(|a: Asset| asset_view(a))
}

/// The files that have both a name and an address.
pub open spec fn complete(
    entries: Seq<(Option<Seq<char>>, Option<Seq<char>>)>,
) -> Seq<(Seq<char>, Seq<char>)>
    decreases entries.len(),
{
    if entries.len() == 0 {
        Seq::empty()
    } else {
        let before = complete(entries.drop_last());
        match entries.last() {
            (Some(name), Some(url)) => before.push((name, url)),
            _ => before,
        }
    }
}

/// What a list of entries says.
pub open spec fn entry_views(
    entries: Seq<(Option<String>, Option<String>)>,
) -> Seq<(Option<Seq<char>>, Option<Seq<char>>)> {
    entries.map_values(
        |e: (Option<String>, Option<String>)|
            (
                crate::engine::model::text_view(e.0),
                crate::engine::model::text_view(e.1),
            ),
    )
}

/// The release that was read: its tag, its page and its files.
pub fn release_of(
    tag: Option<String>,
    url: Option<String>,
    entries: Vec<(Option<String>, Option<String>)>,
) -> (r: Result<Release, String>)
    ensures
        match r {
            Ok(release) => {
                &&& tag is Some && release.tag@ == tag->0@
                &&& release.url@ == match url {
                    Some(url) => url@,
                    None => "https://github.com"@,
                }
                &&& asset_views(release.assets@) == complete(entry_views(entries@))
            },
            Err(text) => tag is None && text@ == "release has no tag"@,
        },
{
    let tag = match tag {
        Some(tag) => tag,
        None => return Err("release has no tag".to_owned()),
    };
    let ghost all = entry_views(entries@);
    let mut assets: Vec<Asset> = Vec::new();
    let mut i: usize = 0;
    assert(asset_views(assets@) =~= complete(all.take(0)));
    while i < entries.len()
        invariant
            i <= entries.len(),
            all == entry_views(entries@),
            asset_views(assets@) == complete(all.take(i as int)),
        decreases entries.len() - i,
    {
        assert(all.take(i + 1).drop_last() =~= all.take(i as int));
        assert(all.take(i + 1).last() == all[i as int]);
        if let (Some(name), Some(url)) = (&entries[i].0, &entries[i].1) {
            let ghost before = asset_views(assets@);
            assets.push(Asset { name: name.clone(), url: url.clone() });
            assert(asset_views(assets@) =~= before.push((name@, url@)));
        }
        i = i + 1;
    }
    assert(all.take(i as int) =~= all);
    let url = match url {
        Some(url) => url,
        None => "https://github.com".to_owned(),
    };
    Ok(Release { tag, url, assets })
}

/// The place of a field of the file at `i`.
pub open spec fn asset_place(i: int, field: Seq<char>) -> Seq<char> {
    "/assets/"@ + crate::text::dec(i as nat) + field
}

/// The entries of the files that a reply lists.
pub open spec fn reply_entries(raw: Seq<char>) -> Seq<(Option<Seq<char>>, Option<Seq<char>>)> {
    let n = match json_length_at(raw, "/assets"@) {
        Some(n) => n,
        None => 0,
    };
    Seq::new(
        n as nat,
        |i: int|
            (
                json_text_at(raw, asset_place(i, "/name"@)),
                json_text_at(raw, asset_place(i, "/browser_download_url"@)),
            ),
    )
}

/// The latest release that a reply of the release server describes.
pub fn latest_release(raw: &str) -> (r: Result<Release, String>)
    ensures
        match r {
            Ok(release) => {
                &&& json_failure(raw@) is None
                &&& json_text_at(raw@, "/tag_name"@) == Some(release.tag@)
                &&& release.url@ == match json_text_at(raw@, "/html_url"@) {
                    Some(url) => url,
                    None => "https://github.com"@,
                }
                &&& asset_views(release.assets@) == complete(reply_entries(raw@))
            },
            Err(text) => match json_failure(raw@) {
                Some(reason) => text@ == reason,
                None => json_text_at(raw@, "/tag_name"@) is None && text@
                    == "release has no tag"@,
            },
        },
{
    if let Err(reason) = check_json(raw) {
        return Err(reason);
    }
    let tag = json_text(raw, "/tag_name");
    let url = json_text(raw, "/html_url");
    let n: usize = match json_length(raw, "/assets") {
        Some(n) => n,
        None => 0,
    };
    let mut entries: Vec<(Option<String>, Option<String>)> = Vec::new();
    let mut i: usize = 0;
    while i < n
        invariant
            i <= n,
            entries.len() == i,
            n == reply_entries(raw@).len(),
            forall|k: int| 0 <= k < i ==> #[trigger] entry_views(entries@)[k] == reply_entries(
                raw@,
            )[k],
        decreases n - i,
    {
        let ghost before = entries@;
        let number = decimal(i as u64);
        let name = json_text(raw, join3("/assets/", number.as_str(), "/name").as_str());
        let address = json_text(
            raw,
            join3("/assets/", number.as_str(), "/browser_download_url").as_str(),
        );
        entries.push((name, address));
        assert forall|k: int| 0 <= k < i + 1 implies #[trigger] entry_views(entries@)[k]
            == reply_entries(raw@)[k] by {
            if k < i {
                assert(entry_views(entries@)[k] == entry_views(before)[k]);
            }
        }
        i = i + 1;
    }
    assert(entry_views(entries@) =~= reply_entries(raw@));
    release_of(tag, url, entries)
}

/// The parts of a version such as `v1.20.3`.
pub open spec fn version_parts(text: Seq<char>) -> Seq<Seq<char>> {
    crate::text::split_at_char(crate::text::without_prefix(text, "v"@), '.')
}

/// Whether a text is a version: numbers with dots between them.
pub open spec fn is_version(text: Seq<char>) -> bool {
    forall|i: int|
        0 <= i < version_parts(text).len() ==> crate::text::number_of(
            #[trigger] version_parts(text)[i],
            u32::MAX as nat,
        ) is Some
}

/// The numbers of a version.
pub open spec fn version_numbers(text: Seq<char>) -> Seq<nat> {
    version_parts(text).map_values(
        |part: Seq<char>| crate::text::number_of(part, u32::MAX as nat)->0,
    )
}

/// Whether a version comes after another: the first number that differs is
/// larger, or the other one ends earlier.
pub open spec fn is_later(a: Seq<nat>, b: Seq<nat>) -> bool
    decreases a.len(),
{
    if a.len() == 0 {
        false
    } else if b.len() == 0 {
        true
    } else if a[0] != b[0] {
        a[0] > b[0]
    } else {
        is_later(a.drop_first(), b.drop_first())
    }
}

fn read_version(text: &str) -> (r: Option<Vec<u32>>)
    ensures
        match r {
            Some(numbers) => is_version(text@) && numbers@.map_values(|n: u32| n as nat)
                == version_numbers(text@),
            None => !is_version(text@),
        },
{
    proof {
        reveal_strlit("v");
    }
    let bare = trim_prefix(text, "v");
    let parts = split(bare.as_str(), '.');
    let ghost all = version_parts(text@);
    assert(crate::text::views(parts@).len() == parts.len());
    let mut numbers: Vec<u32> = Vec::new();
    let mut i: usize = 0;
    while i < parts.len()
        invariant
            i <= parts.len(),
            numbers.len() == i,
            all == version_parts(text@),
            crate::text::views(parts@) == all,
            parts.len() == all.len(),
            forall|k: int|
                0 <= k < i ==> crate::text::number_of(#[trigger] all[k], u32::MAX as nat) == Some(
                    numbers@[k] as nat,
                ),
        decreases parts.len() - i,
    {
        assert(all[i as int] == parts@[i as int]@);
        match parse_u32(parts[i].as_str()) {
            Some(n) => numbers.push(n),
            None => {
                return None;
            },
        }
        i = i + 1;
    }
    assert(numbers@.map_values(|n: u32| n as nat) =~= version_numbers(text@));
    Some(numbers)
}

/// Whether a version is newer than this build, if both are versions.
pub fn is_newer(version: &str, current: &str) -> (r: Option<bool>)
    ensures
        r == if is_version(version@) && is_version(current@) {
            Some(is_later(version_numbers(version@), version_numbers(current@)))
        } else {
            None
        },
{
    let (a, b) = match (read_version(version), read_version(current)) {
        (Some(a), Some(b)) => (a, b),
        _ => return None,
    };
    let ghost x = version_numbers(version@);
    let ghost y = version_numbers(current@);
    assert(x.len() == a.len() && y.len() == b.len());
    let mut i: usize = 0;
    assert(x.skip(0) =~= x && y.skip(0) =~= y);
    while i < a.len() && i < b.len()
        invariant
            i <= a.len() == x.len(),
            i <= b.len() == y.len(),
            x == a@.map_values(|n: u32| n as nat),
            y == b@.map_values(|n: u32| n as nat),
            is_later(x, y) == is_later(x.skip(i as int), y.skip(i as int)),
            x == version_numbers(version@),
            y == version_numbers(current@),
            is_version(version@) && is_version(current@),
        decreases a.len() - i,
    {
        assert(x.skip(i as int).drop_first() =~= x.skip(i + 1));
        assert(y.skip(i as int).drop_first() =~= y.skip(i + 1));
        assert(x.skip(i as int)[0] == a@[i as int] && y.skip(i as int)[0] == b@[i as int]);
        if a[i] != b[i] {
            return Some(a[i] > b[i]);
        }
        i = i + 1;
    }
    Some(a.len() > b.len())
}

/// What a check does about a release.
#[derive(Debug)]
pub enum CheckStep {
    /// This is the latest version.
    UpToDate,
    /// Tell the user, and nothing else.
    Report(UpdateEvent),
    /// Find the installer and download it.
    Fetch,
}

/// Whether an intact installer of this version waits on disk. `hash` is that of
/// its file.
pub open spec fn waits(
    pending: Option<PendingUpdate>,
    hash: Option<String>,
    version: Seq<char>,
) -> bool {
    &&& pending is Some && pending->0.version@ == version
    &&& hash is Some && is_same_hash(hash->0@, pending->0.sha256@)
}

/// What is done about a release. `newer` says whether it is newer than this
/// build, `installed` whether this copy was installed; `hash` is that of the
/// file of the pending installer, if it is on disk and could be read. One that
/// is missing or corrupt is fetched again.
pub fn check_release(
    release: &Release,
    version: &str,
    newer: bool,
    installed: bool,
    pending: Option<PendingUpdate>,
    hash: &Option<String>,
) -> (r: CheckStep)
    ensures
        if !newer {
            r is UpToDate
        } else if !installed {
            r matches CheckStep::Report(UpdateEvent::Available { version: v, url }) && v@
                == version@ && url@ == release.url@
        } else if waits(pending, *hash, version@) {
            r == CheckStep::Report(UpdateEvent::Ready(pending->0))
        } else {
            r is Fetch
        },
{
    if !newer {
        return CheckStep::UpToDate;
    }
    if !installed {
        return CheckStep::Report(
            UpdateEvent::Available { version: version.to_owned(), url: release.url.clone() },
        );
    }
    if let Some(pending) = pending {
        if same(pending.version.as_str(), version) && hash_matches(hash, pending.sha256.as_str()) {
            return CheckStep::Report(UpdateEvent::Ready(pending));
        }
    }
    CheckStep::Fetch
}

/// The files with this name.
pub open spec fn asset_named(name: Seq<char>) -> spec_fn(Asset) -> bool {
    |a: Asset| a.name@ == name
}

/// The files with this name, in whatever case it is written.
pub open spec fn asset_called(name: Seq<char>) -> spec_fn(Asset) -> bool {
    |a: Asset| crate::text::ascii_lower(a.name@) == crate::text::ascii_lower(name)
}

/// Files that an installer can be: programs.
pub open spec fn is_program() -> spec_fn(Asset) -> bool {
    |a: Asset| crate::text::ends_in(crate::text::ascii_lower(a.name@), ".exe"@)
}

/// The name of the first program of a release.
pub fn installer_of(release: &Release) -> (r: Option<String>)
    ensures
        crate::engine::model::text_view(r) == match crate::lists::first_where(
            release.assets@,
            is_program(),
        ) {
            Some(i) => Some(release.assets@[i].name@),
            None => None,
        },
{
    let ghost all = release.assets@;
    let mut i: usize = 0;
    proof {
        crate::lists::first_where_is_first(all, is_program());
    }
    while i < release.assets.len()
        invariant
            i <= release.assets.len(),
            all == release.assets@,
            forall|k: int| 0 <= k < i ==> !is_program()(#[trigger] all[k]),
        decreases release.assets.len() - i,
    {
        let name = &release.assets[i].name;
        if ends_with(to_ascii_lower(name.as_str()).as_str(), ".exe") {
            proof {
                assert(is_program()(all[i as int]));
                crate::lists::first_where_is_first(all, is_program());
            }
            return Some(name.clone());
        }
        i = i + 1;
    }
    proof {
        crate::lists::first_where_is_first(all, is_program());
    }
    None
}

/// The checksum on a line of a list of checksums, if it is that of the file:
/// the checksum stands before the first space, the name behind it, perhaps with
/// the star that marks a binary file.
pub open spec fn checksum_on(line: Seq<char>, asset: Seq<char>) -> Option<Seq<char>> {
    let whole = crate::text::trimmed(line);
    let hash = crate::text::split_at_char(whole, ' ')[0];
    let name = crate::text::trimmed(whole.skip(hash.len() as int));
    if crate::text::without_prefix(name, "*"@) == asset {
        Some(hash)
    } else {
        None
    }
}

/// The checksum that the first of the lines about a file gives.
pub open spec fn checksum_in(lines: Seq<Seq<char>>, asset: Seq<char>) -> Option<Seq<char>>
    decreases lines.len(),
{
    if lines.len() == 0 {
        None
    } else if checksum_on(lines[0], asset) is Some {
        checksum_on(lines[0], asset)
    } else {
        checksum_in(lines.drop_first(), asset)
    }
}

fn read_checksum(line: &str, asset: &str) -> (r: Option<String>)
    ensures
        crate::engine::model::text_view(r) == checksum_on(line@, asset@),
{
    proof {
        reveal_strlit("*");
    }
    let whole = trim(line);
    let pieces = split(whole.as_str(), ' ');
    proof {
        crate::text::there_is_a_first_piece(whole@, ' ');
        assert(crate::text::views(pieces@).len() == pieces.len());
        assert(crate::text::views(pieces@)[0] == pieces@[0]@);
    }
    let hash = pieces[0].clone();
    let chars = chars_of(whole.as_str());
    let n: usize = hash.as_str().unicode_len();
    let rest = slice_of(chars.as_slice(), n, chars.len());
    assert(rest@ =~= whole@.skip(n as int));
    let name = trim_prefix(trim(rest.as_str()).as_str(), "*");
    if same(name.as_str(), asset) {
        Some(hash)
    } else {
        None
    }
}

/// The checksum that a list in the format of `sha256sum` gives for a file.
pub fn checksum_for(sums: &str, asset: &str) -> (r: Option<String>)
    ensures
        crate::engine::model::text_view(r) == checksum_in(
            crate::text::split_at_char(sums@, '\n'),
            asset@,
        ),
{
    let lines = split(sums, '\n');
    let ghost all = crate::text::views(lines@);
    let mut i: usize = 0;
    assert(all.skip(0) =~= all);
    while i < lines.len()
        invariant
            i <= lines.len(),
            all == crate::text::views(lines@),
            all == crate::text::split_at_char(sums@, '\n'),
            checksum_in(all, asset@) == checksum_in(all.skip(i as int), asset@),
        decreases lines.len() - i,
    {
        assert(all.skip(i as int).drop_first() =~= all.skip(i + 1));
        assert(all.skip(i as int)[0] == lines@[i as int]@);
        let found = read_checksum(lines[i].as_str(), asset);
        if found.is_some() {
            return found;
        }
        i = i + 1;
    }
    None
}

/// Where the installer of a release is, and the list of checksums, if the
/// release has one.
#[derive(Debug)]
pub struct FetchPlan {
    pub asset: String,
    pub url: String,
    pub sums: Option<String>,
}

/// Finds the installer of a release. `installer` is the name of the file that
/// installs on this system, if the release has one.
pub fn plan_fetch(release: &Release, installer: Option<String>) -> (r: Result<FetchPlan, String>)
    ensures
        match installer {
            None => r matches Err(text) && text@ == "release "@ + release.tag@
                + " has no installer"@,
            Some(name) => match crate::lists::first_where(release.assets@, asset_named(name@)) {
                None => r matches Err(text) && text@ == "installer asset has no url"@,
                Some(i) => r matches Ok(plan) && {
                    &&& plan.asset@ == name@
                    &&& plan.url@ == release.assets@[i].url@
                    &&& match crate::lists::first_where(
                        release.assets@,
                        asset_called("SHA256SUMS.txt"@),
                    ) {
                        Some(k) => plan.sums is Some && plan.sums->0@ == release.assets@[k].url@,
                        None => plan.sums is None,
                    }
                },
            },
        },
{
    let asset = match installer {
        Some(asset) => asset,
        None => {
            let mut text = join2("release ", release.tag.as_str());
            text.append(" has no installer");
            return Err(text);
        },
    };
    let url = match find_named(&release.assets, asset.as_str()) {
        Some(i) => release.assets[i].url.clone(),
        None => return Err("installer asset has no url".to_owned()),
    };
    let sums = match find_called(&release.assets, "SHA256SUMS.txt") {
        Some(i) => Some(release.assets[i].url.clone()),
        None => None,
    };
    Ok(FetchPlan { asset, url, sums })
}

fn find_named(assets: &Vec<Asset>, name: &str) -> (r: Option<usize>)
    ensures
        match r {
            Some(i) => i < assets.len() && crate::lists::first_where(assets@, asset_named(name@))
                == Some(i as int),
            None => crate::lists::first_where(assets@, asset_named(name@)) is None,
        },
{
    let mut i: usize = 0;
    while i < assets.len()
        invariant
            i <= assets.len(),
            forall|k: int| 0 <= k < i ==> !asset_named(name@)(#[trigger] assets@[k]),
        decreases assets.len() - i,
    {
        if same(assets[i].name.as_str(), name) {
            proof {
                crate::lists::first_where_is_first(assets@, asset_named(name@));
                assert(asset_named(name@)(assets@[i as int]));
            }
            return Some(i);
        }
        i = i + 1;
    }
    proof {
        crate::lists::first_where_is_first(assets@, asset_named(name@));
    }
    None
}

fn find_called(assets: &Vec<Asset>, name: &str) -> (r: Option<usize>)
    ensures
        match r {
            Some(i) => i < assets.len() && crate::lists::first_where(assets@, asset_called(name@))
                == Some(i as int),
            None => crate::lists::first_where(assets@, asset_called(name@)) is None,
        },
{
    let lower = to_ascii_lower(name);
    let mut i: usize = 0;
    while i < assets.len()
        invariant
            i <= assets.len(),
            lower@ == crate::text::ascii_lower(name@),
            forall|k: int| 0 <= k < i ==> !asset_called(name@)(#[trigger] assets@[k]),
        decreases assets.len() - i,
    {
        if same(to_ascii_lower(assets[i].name.as_str()).as_str(), lower.as_str()) {
            proof {
                crate::lists::first_where_is_first(assets@, asset_called(name@));
                assert(asset_called(name@)(assets@[i as int]));
            }
            return Some(i);
        }
        i = i + 1;
    }
    proof {
        crate::lists::first_where_is_first(assets@, asset_called(name@));
    }
    None
}

/// The checksum that an installer has to have. `found` is the one that the
/// list of checksums gives for it.
pub fn expected_hash(release: &Release, asset: &str, found: Option<String>) -> (r: Result<
    String,
    String,
>)
    ensures
        match found {
            Some(hash) => r == Ok::<String, String>(hash),
            None => r matches Err(text) && text@ == "release "@ + release.tag@
                + " has no SHA256SUMS.txt entry for "@ + asset@,
        },
{
    match found {
        Some(hash) => Ok(hash),
        None => {
            let mut text = join2("release ", release.tag.as_str());
            text.append(" has no SHA256SUMS.txt entry for ");
            text.append(asset);
            Err(text)
        },
    }
}

/// The update that a download makes, if its checksum is the expected one.
pub fn accept_download(
    release: &Release,
    version: &str,
    asset: &str,
    installer: String,
    download: Download,
    expected: String,
) -> (r: Result<PendingUpdate, String>)
    ensures
        match r {
            Ok(pending) => {
                &&& sha256_hex(download.bytes()) == expected@
                &&& pending.version@ == version@
                &&& pending.installer == installer
                &&& pending.sha256 == expected
                &&& pending.release_url@ == release.url@
            },
            Err(text) => sha256_hex(download.bytes()) != expected@ && text@
                == "checksum mismatch for "@ + asset@,
        },
{
    let actual = download.finish();
    if !same(actual.as_str(), expected.as_str()) {
        return Err(join2("checksum mismatch for ", asset));
    }
    Ok(
        PendingUpdate {
            version: version.to_owned(),
            installer,
            sha256: expected,
            release_url: release.url.clone(),
        },
    )
}

/// An installer that was accepted runs at the next start as long as its file
/// stays what was downloaded, and not when its hash changed.
pub proof fn only_what_was_verified_runs(pending: PendingUpdate, bytes: Seq<u8>, other: Seq<u8>)
    requires
        sha256_hex(bytes) == pending.sha256@,
    ensures
        is_same_hash(sha256_hex(bytes), pending.sha256@),
        crate::text::ascii_lower(sha256_hex(other)) != crate::text::ascii_lower(sha256_hex(bytes))
            ==> !is_same_hash(sha256_hex(other), pending.sha256@),
{
}

/// A version is later when the first number that differs is larger, whatever
/// follows, and when it goes on where the other one ends.
pub proof fn the_first_number_that_differs_decides(a: Seq<nat>, b: Seq<nat>, i: int)
    requires
        0 <= i <= a.len(),
        i <= b.len(),
        forall|k: int| 0 <= k < i ==> a[k] == b[k],
    ensures
        i < a.len() && i < b.len() && a[i] > b[i] ==> is_later(a, b) && !is_later(b, a),
        i < a.len() && i == b.len() ==> is_later(a, b) && !is_later(b, a),
        i == a.len() && i == b.len() ==> !is_later(a, b),
    decreases i,
{
    if i > 0 {
        assert(forall|k: int| 0 <= k < i - 1 ==> a.drop_first()[k] == b.drop_first()[k]);
        the_first_number_that_differs_decides(a.drop_first(), b.drop_first(), i - 1);
    }
}

/// Of two versions one is later, unless they are the same.
pub proof fn versions_are_in_order(a: Seq<nat>, b: Seq<nat>)
    ensures
        is_later(a, b) || is_later(b, a) || a == b,
        !(is_later(a, b) && is_later(b, a)),
    decreases a.len(),
{
    if a.len() > 0 && b.len() > 0 {
        versions_are_in_order(a.drop_first(), b.drop_first());
        if a[0] == b[0] && a.drop_first() == b.drop_first() {
            assert(a =~= seq![a[0]] + a.drop_first());
            assert(b =~= seq![b[0]] + b.drop_first());
        }
    } else {
        assert(a.len() == 0 && b.len() == 0 ==> a =~= b);
    }
}

/// Every file of a release that has a name and an address is listed, and nothing
/// else is.
pub proof fn complete_files_are_listed(
    entries: Seq<(Option<Seq<char>>, Option<Seq<char>>)>,
    name: Seq<char>,
    url: Seq<char>,
)
    ensures
        complete(entries).contains((name, url)) <==> entries.contains((Some(name), Some(url))),
    decreases entries.len(),
{
    if entries.len() > 0 {
        let front = entries.drop_last();
        let before = complete(front);
        complete_files_are_listed(front, name, url);
        let all = complete(entries);
        if all.contains((name, url)) {
            let k = choose|k: int| 0 <= k < all.len() && all[k] == (name, url);
            if k < before.len() {
                assert(before[k] == (name, url));
                let i = choose|i: int| 0 <= i < front.len() && front[i] == (Some(name), Some(url));
                assert(entries[i] == (Some(name), Some(url)));
            } else {
                assert(entries[entries.len() - 1] == (Some(name), Some(url)));
            }
        }
        if entries.contains((Some(name), Some(url))) {
            let i = choose|i: int| 0 <= i < entries.len() && entries[i] == (Some(name), Some(url));
            if i < front.len() {
                assert(front[i] == (Some(name), Some(url)));
                let k = choose|k: int| 0 <= k < before.len() && before[k] == (name, url);
                assert(all[k] == (name, url));
            } else {
                assert(all[before.len() as int] == (name, url));
            }
        }
    }
}

/// The first line about a file gives its checksum, and no line about another file
/// does.
pub proof fn the_first_line_about_a_file_counts(
    lines: Seq<Seq<char>>,
    asset: Seq<char>,
    i: int,
)
    requires
        0 <= i < lines.len(),
        forall|k: int| 0 <= k < i ==> checksum_on(#[trigger] lines[k], asset) is None,
        checksum_on(lines[i], asset) is Some,
    ensures
        checksum_in(lines, asset) == checksum_on(lines[i], asset),
    decreases lines.len(),
{
    if i > 0 {
        let rest = lines.drop_first();
        assert(forall|k: int| 0 <= k < rest.len() ==> rest[k] == lines[k + 1]);
        assert(checksum_on(lines[0], asset) is None);
        the_first_line_about_a_file_counts(rest, asset, i - 1);
    }
}

/// Without a line about a file there is no checksum for it.
pub proof fn a_file_without_a_line_has_no_checksum(lines: Seq<Seq<char>>, asset: Seq<char>)
    requires
        forall|k: int| 0 <= k < lines.len() ==> checksum_on(#[trigger] lines[k], asset) is None,
    ensures
        checksum_in(lines, asset) is None,
    decreases lines.len(),
{
    if lines.len() > 0 {
        let rest = lines.drop_first();
        assert(forall|k: int| 0 <= k < rest.len() ==> rest[k] == lines[k + 1]);
        assert(checksum_on(lines[0], asset) is None);
        a_file_without_a_line_has_no_checksum(rest, asset);
    }
}

/// An installer on disk is only used for the version that it was fetched for, and
/// only while it is intact.
pub proof fn only_an_intact_installer_waits(
    pending: Option<PendingUpdate>,
    hash: Option<String>,
    version: Seq<char>,
)
    ensures
        waits(pending, hash, version) <==> pending is Some && hash is Some
            && pending->0.version@ == version && crate::text::ascii_lower(hash->0@)
            == crate::text::ascii_lower(pending->0.sha256@),
{
}

/// A line of checksums holds the checksum, and behind a space and a mark the name
/// of the file that it is about.
pub proof fn a_line_is_about_the_file_that_it_names(
    hash: Seq<char>,
    mark: char,
    name: Seq<char>,
    asset: Seq<char>,
)
    requires
        hash.len() > 0,
        !hash.contains(' '),
        !crate::text::is_white(hash[0]),
        mark == ' ' || mark == '*',
        name.len() > 0,
        !crate::text::is_white(name[0]),
        !crate::text::is_white(name.last()),
        name[0] != '*',
    ensures
        checksum_on(hash + seq![' '] + seq![mark] + name, asset) == (if name == asset {
            Some(hash)
        } else {
            None
        }),
{
    let rest = seq![mark] + name;
    let line = hash + seq![' '] + rest;
    assert(hash + seq![' '] + seq![mark] + name =~= line);
    reveal_strlit("*");
    assert("*"@ =~= seq!['*']);
    trimming_keeps_the_inside(Seq::empty(), line);
    assert(Seq::empty() + line =~= line);
    crate::text::nothing_after_last(hash, ' ');
    if crate::text::last_index(hash, ' ') >= 0 {
        assert(hash.contains(' '));
    }
    crate::paths::pieces_add_up(hash, ' ', rest);
    assert(crate::text::split_at_char(line, ' ')[0] == hash);
    let tail = line.skip(hash.len() as int);
    let star = "*"@;
    crate::text::a_prefix_goes(star, name);
    assert(!star.is_prefix_of(name)) by {
        if star.is_prefix_of(name) {
            assert(name[0] == star[0]);
        }
    }
    if mark == ' ' {
        assert(tail =~= seq![' ', ' '] + name);
        trimming_keeps_the_inside(seq![' ', ' '], name);
    } else {
        assert(tail =~= seq![' '] + rest);
        trimming_keeps_the_inside(seq![' '], rest);
        assert(rest =~= star + name);
    }
    assert(crate::text::without_prefix(crate::text::trimmed(tail), star) == name);
}

proof fn trimming_keeps_the_inside(front: Seq<char>, s: Seq<char>)
    requires
        forall|i: int| 0 <= i < front.len() ==> #[trigger] front[i] == ' ',
        s.len() > 0,
        !crate::text::is_white(s[0]),
        !crate::text::is_white(s.last()),
    ensures
        crate::text::trimmed(front + s) == s,
{
    let t = front + s;
    crate::text::only_outer_white_space_is_trimmed(t);
    let (i, j) = choose|i: int, j: int|
        0 <= i <= j <= t.len() && crate::text::trimmed(t) == #[trigger] t.subrange(i, j) && (
        forall|k: int| 0 <= k < i ==> crate::text::is_white(#[trigger] t[k])) && (forall|k: int|
            j <= k < t.len() ==> crate::text::is_white(#[trigger] t[k])) && (i < j
            ==> !crate::text::is_white(t[i]) && !crate::text::is_white(t[j - 1]));
    assert(t[front.len() as int] == s[0]);
    assert(t[t.len() - 1] == s.last());
    assert(i <= front.len());
    assert(j == t.len());
    if i < front.len() {
        assert(t[i] == ' ');
    }
    assert(t.subrange(i, j) =~= s);
}

/// The installer is found under its own name, the checksums in any case of letters.
pub proof fn files_are_found_by_name(a: Asset, name: Seq<char>)
    ensures
        asset_named(name)(a) <==> a.name@ == name,
        a.name@ == name ==> asset_called(name)(a),
        asset_called(name)(a) ==> a.name@.len() == name.len(),
        asset_called(name)(a) <==> a.name@.len() == name.len() && forall|i: int|
            0 <= i < name.len() ==> crate::text::ascii_lower_char(#[trigger] a.name@[i])
                == crate::text::ascii_lower_char(name[i]),
{
    let x = crate::text::ascii_lower(a.name@);
    let y = crate::text::ascii_lower(name);
    if asset_called(name)(a) {
        assert(x.len() == y.len());
        assert forall|i: int| 0 <= i < name.len() implies crate::text::ascii_lower_char(
            #[trigger] a.name@[i],
        ) == crate::text::ascii_lower_char(name[i]) by {
            assert(x[i] == y[i]);
        }
    } else if a.name@.len() == name.len() && forall|i: int|
        0 <= i < name.len() ==> crate::text::ascii_lower_char(#[trigger] a.name@[i])
            == crate::text::ascii_lower_char(name[i]) {
        assert(x =~= y);
    }
}

} // verus!
