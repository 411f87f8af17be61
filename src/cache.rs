//! The on-disk image cache: where an image is stored, which address it is
//! downloaded from, and the steps of bringing it into the cache.
use vstd::prelude::*;
use crate::descriptor::{CacheError, ImageDescriptor};
use crate::text::{
    contains, disjoint, has_prefix, lemma_absent_after_prefix, lemma_present_after_prefix,
    lemma_replaced_word_absent, lemma_replacement_present, replace_all, replace_str, starts_with,
};

verus! {

/// The origin put in front of a relative image address.
pub open spec fn service_origin() -> Seq<char> {
    "https://www.bing.com"@
}

/// The resolution token found in the addresses the service hands out.
pub open spec fn full_hd_token() -> Seq<char> {
    "1920x1080"@
}

/// The resolution token that is downloaded in its place.
pub open spec fn uhd_token() -> Seq<char> {
    "UHD"@
}

/// An address that names its own scheme and host.
pub open spec fn is_absolute_url(u: Seq<char>) -> bool {
    has_prefix(u, "http://"@) || has_prefix(u, "https://"@)
}

/// The address an image is downloaded from: the resolution token swapped,
/// and the service origin put in front of a relative address.
pub open spec fn download_url_of(u: Seq<char>) -> Seq<char> {
    let swapped = replace_all(u, full_hd_token(), uhd_token());
    if is_absolute_url(u) {
        swapped
    } else {
        service_origin() + swapped
    }
}

/// The cache directory under a home directory.
pub open spec fn cache_dir_of(home: Seq<char>) -> Seq<char> {
    home + "/Pictures/Wallpaper"@
}

/// The cache file of an image with the given date inside a cache directory.
pub open spec fn cache_path_of(dir: Seq<char>, date: Seq<char>) -> Seq<char> {
    dir + "/"@ + date + ".jpg"@
}

/// The cache directory `<home>/Pictures/Wallpaper`.
pub fn cache_dir(home: &str) -> (r: String)
    ensures
        r@ == cache_dir_of(home@),
{
    let mut r = home.to_owned();
    r.append("/Pictures/Wallpaper");
    r
}

/// The cache file `<dir>/<date>.jpg`.
pub fn cache_path(dir: &str, date: &str) -> (r: String)
    ensures
        r@ == cache_path_of(dir@, date@),
{
    let mut r = dir.to_owned();
    r.append("/");
    r.append(date);
    r.append(".jpg");
    r
}

/// The address an image is downloaded from.
pub fn download_url(url: &str) -> (r: String)
    ensures
        r@ == download_url_of(url@),
{
    proof {
        reveal_strlit("1920x1080");
    }
    let swapped = replace_str(url, "1920x1080", "UHD");
    if starts_with(url, "http://") || starts_with(url, "https://") {
        swapped
    } else {
        let mut r = "https://www.bing.com".to_owned();
        r.append(swapped.as_str());
        r
    }
}

/// The download address never holds the full-HD token, and holds the UHD
/// token wherever the given address held the full-HD one.
pub proof fn lemma_download_url_resolution(u: Seq<char>)
    ensures
        !contains(download_url_of(u), full_hd_token()),
        contains(u, full_hd_token()) ==> contains(download_url_of(u), uhd_token()),
{
    reveal_strlit("1920x1080");
    reveal_strlit("UHD");
    reveal_strlit("https://www.bing.com");
    let f = full_hd_token();
    let t = uhd_token();
    let swapped = replace_all(u, f, t);
    assert(disjoint(f, t));
    lemma_replaced_word_absent(u, f, t);
    if contains(u, f) {
        lemma_replacement_present(u, f, t);
    }
    if !is_absolute_url(u) {
        let o = service_origin();
        assert(forall|i: int| 0 <= i < o.len() ==> o[i] != f[0]);
        lemma_absent_after_prefix(o, swapped, f);
        if contains(u, f) {
            lemma_present_after_prefix(o, swapped, t);
        }
    }
}

/// Where the resolution of one image stands.
#[derive(Debug, Clone, Copy, PartialEq, Eq, Structural)]
pub enum ResolvePhase {
    /// The cache directory must exist before anything else.
    CreatingDir,
    /// The cache file is looked for.
    Probing,
    /// The image is downloaded and written to the cache file.
    Downloading,
    /// Done: `None` when the cache file is in place, else the failure.
    Finished(Option<CacheError>),
}

/// What the caller reports back after carrying out the pending action.
#[derive(Debug, Clone, Copy, PartialEq, Eq, Structural)]
pub enum ResolveEvent {
    /// Whether the cache directory exists now (created if it was missing).
    DirReady(bool),
    /// Whether the cache file exists.
    Probed(bool),
    /// How downloading and writing the file went.
    Stored(Option<CacheError>),
}

/// The next piece of outside work that resolving an image needs.
#[derive(Debug)]
pub enum ResolveAction {
    /// Create the directory, with its parents, if it is missing.
    CreateDir(String),
    /// Tell whether this file exists.
    Probe(String),
    /// Fetch `url` once and write the whole body to `path`.
    Download { url: String, path: String },
    /// Nothing more to do: the cache file, or why there is none.
    Finished(Result<String, CacheError>),
}

/// The phase after an event. An event that does not answer the pending
/// action changes nothing, and a finished resolution stays finished.
pub open spec fn next_phase(p: ResolvePhase, e: ResolveEvent) -> ResolvePhase {
    match (p, e) {
        (ResolvePhase::CreatingDir, ResolveEvent::DirReady(true)) => ResolvePhase::Probing,
        (ResolvePhase::CreatingDir, ResolveEvent::DirReady(false)) => ResolvePhase::Finished(
            Some(CacheError::Storage),
        ),
        (ResolvePhase::Probing, ResolveEvent::Probed(true)) => ResolvePhase::Finished(None),
        (ResolvePhase::Probing, ResolveEvent::Probed(false)) => ResolvePhase::Downloading,
        (ResolvePhase::Downloading, ResolveEvent::Stored(outcome)) => ResolvePhase::Finished(
            outcome,
        ),
        _ => p,
    }
}

/// The phase after a sequence of events.
pub open spec fn run_phase(p: ResolvePhase, evs: Seq<ResolveEvent>) -> ResolvePhase
    decreases evs.len(),
{
    if evs.len() == 0 {
        p
    } else {
        run_phase(next_phase(p, evs[0]), evs.drop_first())
    }
}

/// How many downloads are started along a sequence of events.
pub open spec fn downloads_started(p: ResolvePhase, evs: Seq<ResolveEvent>) -> nat
    decreases evs.len(),
{
    if evs.len() == 0 {
        0
    } else {
        let q = next_phase(p, evs[0]);
        let started: nat = if q == ResolvePhase::Downloading && p != ResolvePhase::Downloading {
            1
        } else {
            0
        };
        started + downloads_started(q, evs.drop_first())
    }
}

/// Brings one image into the cache, one outside step at a time: the caller
/// carries out `pending()` and reports the result to `on_event`.
pub struct Resolver {
    dir: String,
    path: String,
    url: String,
    phase: ResolvePhase,
}

impl Resolver {
    /// The cache directory.
    pub closed spec fn dir_view(&self) -> Seq<char> {
        self.dir@
    }

    /// The cache file.
    pub closed spec fn path_view(&self) -> Seq<char> {
        self.path@
    }

    /// The address downloaded from on a miss.
    pub closed spec fn url_view(&self) -> Seq<char> {
        self.url@
    }

    /// Where the resolution stands.
    pub closed spec fn phase_view(&self) -> ResolvePhase {
        self.phase
    }

    /// The action that the current phase asks for.
    pub open spec fn pending_is(&self, a: &ResolveAction) -> bool {
        match self.phase_view() {
            ResolvePhase::CreatingDir => a matches ResolveAction::CreateDir(d) && d@
                == self.dir_view(),
            ResolvePhase::Probing => a matches ResolveAction::Probe(p) && p@ == self.path_view(),
            ResolvePhase::Downloading => a matches ResolveAction::Download { url, path } && url@
                == self.url_view() && path@ == self.path_view(),
            ResolvePhase::Finished(None) => a matches ResolveAction::Finished(Ok(p)) && p@
                == self.path_view(),
            ResolvePhase::Finished(Some(e)) => a matches ResolveAction::Finished(Err(x)) && x
                == e,
        }
    }

    /// Starts resolving `d` into the cache under the home directory `home`.
    pub fn new(home: &str, d: &ImageDescriptor) -> (r: Resolver)
        ensures
            r.dir_view() == cache_dir_of(home@),
            r.path_view() == cache_path_of(cache_dir_of(home@), d.date@),
            r.url_view() == download_url_of(d.url@),
            r.phase_view() == ResolvePhase::CreatingDir,
    {
        let dir = cache_dir(home);
        let path = cache_path(dir.as_str(), d.date.as_str());
        let url = download_url(d.url.as_str());
        Resolver { dir, path, url, phase: ResolvePhase::CreatingDir }
    }

    /// Where the resolution stands.
    pub fn phase(&self) -> (r: ResolvePhase)
        ensures
            r == self.phase_view(),
    {
        self.phase
    }

    /// The next action to carry out.
    pub fn pending(&self) -> (r: ResolveAction)
        ensures
            self.pending_is(&r),
    {
        match self.phase {
            ResolvePhase::CreatingDir => ResolveAction::CreateDir(self.dir.clone()),
            ResolvePhase::Probing => ResolveAction::Probe(self.path.clone()),
            ResolvePhase::Downloading => ResolveAction::Download {
                url: self.url.clone(),
                path: self.path.clone(),
            },
            ResolvePhase::Finished(None) => ResolveAction::Finished(Ok(self.path.clone())),
            ResolvePhase::Finished(Some(e)) => ResolveAction::Finished(Err(e)),
        }
    }

    /// Takes the result of the pending action.
    pub fn on_event(&mut self, e: ResolveEvent)
        ensures
            final(self).phase_view() == next_phase(old(self).phase_view(), e),
            final(self).dir_view() == old(self).dir_view(),
            final(self).path_view() == old(self).path_view(),
            final(self).url_view() == old(self).url_view(),
    {
        self.phase = match (self.phase, e) {
            (ResolvePhase::CreatingDir, ResolveEvent::DirReady(true)) => ResolvePhase::Probing,
            (ResolvePhase::CreatingDir, ResolveEvent::DirReady(false)) => ResolvePhase::Finished(
                Some(CacheError::Storage),
            ),
            (ResolvePhase::Probing, ResolveEvent::Probed(true)) => ResolvePhase::Finished(None),
            (ResolvePhase::Probing, ResolveEvent::Probed(false)) => ResolvePhase::Downloading,
            (ResolvePhase::Downloading, ResolveEvent::Stored(outcome)) => ResolvePhase::Finished(
                outcome,
            ),
            (p, _) => p,
        };
    }
}

/// A resolution downloads at most once, whatever the events; one that is
/// already downloading or finished starts no further download.
pub proof fn lemma_at_most_one_download(p: ResolvePhase, evs: Seq<ResolveEvent>)
    ensures
        downloads_started(p, evs) <= 1,
        (p == ResolvePhase::Downloading || p is Finished) ==> downloads_started(p, evs) == 0,
    decreases evs.len(),
{
    if evs.len() > 0 {
        lemma_at_most_one_download(next_phase(p, evs[0]), evs.drop_first());
    }
}

/// Once the probe finds the cache file, the resolution has finished with
/// that file and no download follows, whatever comes after.
pub proof fn lemma_hit_skips_download(evs: Seq<ResolveEvent>)
    ensures
        downloads_started(ResolvePhase::Probing, seq![ResolveEvent::Probed(true)] + evs) == 0,
        run_phase(ResolvePhase::Probing, seq![ResolveEvent::Probed(true)] + evs)
            == ResolvePhase::Finished(None),
{
    let all = seq![ResolveEvent::Probed(true)] + evs;
    assert(all.drop_first() =~= evs);
    lemma_at_most_one_download(ResolvePhase::Finished(None), evs);
    lemma_finished_stays(None, evs);
}

/// A finished resolution keeps its outcome.
pub proof fn lemma_finished_stays(o: Option<CacheError>, evs: Seq<ResolveEvent>)
    ensures
        run_phase(ResolvePhase::Finished(o), evs) == ResolvePhase::Finished(o),
    decreases evs.len(),
{
    if evs.len() > 0 {
        lemma_finished_stays(o, evs.drop_first());
    }
}

/// The events that a resolution meets on a disk holding the files `disk`,
/// where the directory can be created and storing a download ends with `stored`.
pub open spec fn events_on_disk(
    disk: Set<Seq<char>>,
    path: Seq<char>,
    stored: Option<CacheError>,
) -> Seq<ResolveEvent> {
    seq![
        ResolveEvent::DirReady(true),
        ResolveEvent::Probed(disk.contains(path)),
        ResolveEvent::Stored(stored),
    ]
}

/// The files on disk after such a resolution.
pub open spec fn disk_after(
    disk: Set<Seq<char>>,
    path: Seq<char>,
    stored: Option<CacheError>,
) -> Set<Seq<char>> {
    if run_phase(ResolvePhase::CreatingDir, events_on_disk(disk, path, stored))
        == ResolvePhase::Finished(None) {
        disk.insert(path)
    } else {
        disk
    }
}

/// Resolving the same image twice, where the transport and the disk work,
/// downloads at most once: the second resolution finds the file that the
/// first one wrote, and both finish with that file.
pub proof fn lemma_resolve_twice_downloads_once(
    home: Seq<char>,
    date: Seq<char>,
    disk: Set<Seq<char>>,
    second: Option<CacheError>,
)
    ensures
        ({
            let path = cache_path_of(cache_dir_of(home), date);
            let evs1 = events_on_disk(disk, path, None);
            let evs2 = events_on_disk(disk_after(disk, path, None), path, second);
            &&& downloads_started(ResolvePhase::CreatingDir, evs1) + downloads_started(
                ResolvePhase::CreatingDir,
                evs2,
            ) <= 1
            &&& run_phase(ResolvePhase::CreatingDir, evs1) == ResolvePhase::Finished(None)
            &&& run_phase(ResolvePhase::CreatingDir, evs2) == ResolvePhase::Finished(None)
        }),
{
    let path = cache_path_of(cache_dir_of(home), date);
    let evs1 = events_on_disk(disk, path, None);
    let disk1 = disk_after(disk, path, None);
    let evs2 = events_on_disk(disk1, path, second);
    let p = ResolvePhase::CreatingDir;
    reveal_with_fuel(run_phase, 4);
    reveal_with_fuel(downloads_started, 4);
    assert(evs1.drop_first().drop_first().drop_first() =~= Seq::<ResolveEvent>::empty());
    assert(evs2.drop_first().drop_first().drop_first() =~= Seq::<ResolveEvent>::empty());
    assert(evs1.drop_first().drop_first()[0] == evs1[2]);
    assert(evs2.drop_first()[0] == evs2[1]);
    assert(evs2.drop_first().drop_first()[0] == evs2[2]);
    assert(evs1.drop_first()[0] == evs1[1]);
    assert(run_phase(p, evs1) == ResolvePhase::Finished(None));
    assert(disk1.contains(path));
}

} // verus!
