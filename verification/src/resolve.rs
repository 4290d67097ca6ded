//! Resolution of a channel to its most recent long-form upload, and the
//! resolve stage of the pipeline with its per-channel failure isolation.

use vstd::prelude::*;
use vstd::string::StringExecFns;
use vstd::string::StringSliceAdditionalSpecFns;
use vstd::utf8::encode_utf8;
use vstd::utf8::encode_utf8_valid_utf8;
use vstd::utf8::is_char_boundary;
use vstd::utf8::length_of_first_scalar;
use vstd::utf8::pop_first_scalar;
use vstd::utf8::valid_first_scalar;
use vstd::utf8::valid_utf8;

use crate::errors::PipelineError;
use crate::models::Video;
use crate::models::VideoView;
use crate::text::contains_bytes;
use crate::text::contains_seq;

verus! {

/// When the short-form classification probe itself errors, the video is
/// treated as long-form: the classifier fails open, favouring producing
/// content over silently dropping every video while the probe is flaky.
pub const PROBE_FAILURE_IS_LONG_FORM: bool = true;

/// How many of a channel's most recent uploads the resolver scans.
pub const UPLOADS_WINDOW: usize = 15;

/// The byte that marks a channel handle, `'@'`.
pub const HANDLE_MARKER: u8 = 0x40;

/// `bytes` with every leading handle-marker byte removed.
pub open spec fn strip_markers(bytes: Seq<u8>) -> Seq<u8>
    decreases bytes.len(),
{
    if bytes.len() > 0 && bytes[0] == HANDLE_MARKER {
        strip_markers(bytes.drop_first())
    } else {
        bytes
    }
}

/// In valid UTF-8, the position after an ASCII byte on a character boundary
/// is again a character boundary.
proof fn lemma_boundary_step_ascii(b: Seq<u8>, k: int)
    requires
        valid_utf8(b),
        is_char_boundary(b, k),
        0 <= k < b.len(),
        b[k] <= 0x7f,
    ensures
        is_char_boundary(b, k + 1),
    decreases b.len(),
{
    assert(valid_first_scalar(b));
    if k == 0 {
        assert(length_of_first_scalar(b) == 1);
        assert(is_char_boundary(pop_first_scalar(b), 0));
        assert(is_char_boundary(b, 1));
    } else {
        let l = length_of_first_scalar(b);
        let t = pop_first_scalar(b);
        assert(is_char_boundary(t, k - l));
        assert(0 <= k - l < t.len());
        assert(t[k - l] == b[k]);
        lemma_boundary_step_ascii(t, k - l);
        assert(is_char_boundary(b, k + 1));
    }
}

/// Stripping the markers of a sequence whose first `k` bytes are markers and
/// whose byte `k` (if any) is not one leaves exactly the suffix from `k`.
proof fn lemma_strip_markers_suffix(b: Seq<u8>, k: int)
    requires
        0 <= k <= b.len(),
        forall|j: int| 0 <= j < k ==> b[j] == HANDLE_MARKER,
        k == b.len() || b[k] != HANDLE_MARKER,
    ensures
        strip_markers(b) == b.subrange(k, b.len() as int),
    decreases k,
{
    if k == 0 {
        assert(b.subrange(0, b.len() as int) =~= b);
    } else {
        let t = b.drop_first();
        lemma_strip_markers_suffix(t, k - 1);
        assert(t.subrange(k - 1, t.len() as int) =~= b.subrange(k, b.len() as int));
    }
}

/// Normalizes a channel handle by stripping its leading `'@'` markers; the
/// rest of the handle is returned unchanged, ready for a catalog lookup.
pub fn normalize_handle(handle: &str) -> (r: &str)
    ensures
        r.spec_bytes() == strip_markers(handle.spec_bytes()),
{
    let bytes = handle.as_bytes();
    proof {
        encode_utf8_valid_utf8(handle@);
    }
    let n = bytes.len();
    let mut k: usize = 0;
    while k < n && bytes[k] == HANDLE_MARKER
        invariant
            bytes@ == handle.spec_bytes(),
            valid_utf8(bytes@),
            n == bytes@.len(),
            0 <= k <= n,
            is_char_boundary(bytes@, k as int),
            forall|j: int| 0 <= j < k ==> bytes@[j] == HANDLE_MARKER,
        decreases n - k,
    {
        proof {
            lemma_boundary_step_ascii(bytes@, k as int);
        }
        k += 1;
    }
    proof {
        lemma_strip_markers_suffix(bytes@, k as int);
    }
    let (_, rest) = handle.split_at(k);
    rest
}

/// Picks the channel's canonical uploads collection out of the catalog's
/// answer: the first listed channel item carries it, and an empty answer
/// means the handle matched no channel at all.
pub fn uploads_collection(items: &Vec<String>) -> (r: Result<String, PipelineError>)
    ensures
        items@.len() == 0 ==> (r matches Err(e) && e is ChannelNotFound),
        items@.len() > 0 ==> (r matches Ok(u) && u@ == items@[0]@),
{
    if items.len() == 0 {
        Err(PipelineError::ChannelNotFound)
    } else {
        Ok(items[0].clone())
    }
}

/// The canonical watch URL for a video identifier.
pub open spec fn watch_url_spec(id: Seq<char>) -> Seq<char> {
    "https://www.youtube.com/watch?v="@ + id
}

/// Builds the canonical watch URL for a video identifier.
pub fn watch_url(video_id: &str) -> (r: String)
    ensures
        r@ == watch_url_spec(video_id@),
{
    let mut s = String::new();
    s.append("https://www.youtube.com/watch?v=");
    s.append(video_id);
    proof {
        assert(s@ =~= watch_url_spec(video_id@));
    }
    s
}

/// The platform's short-form URL marker, as UTF-8 bytes.
pub open spec fn shorts_marker() -> Seq<u8> {
    encode_utf8("/shorts/"@)
}

/// A URL still points at the platform's short-form pattern.
pub open spec fn spec_is_short_url(url: Seq<char>) -> bool {
    contains_seq(encode_utf8(url), shorts_marker())
}

/// Whether a probe's final URL, after redirects, still matches the platform's
/// short-form pattern.
pub fn is_short_url(final_url: &str) -> (r: bool)
    ensures
        r == spec_is_short_url(final_url@),
{
    contains_bytes(final_url.as_bytes(), "/shorts/".as_bytes())
}

/// What the short-form classification probe reported for one video: the final
/// URL it resolved to after redirects, or that the probe itself failed.
pub enum ProbeOutcome {
    Resolved { final_url: String },
    Failed,
}

/// The classification a probe outcome yields: long-form when the final URL no
/// longer matches the short-form pattern, and long-form again when the probe
/// failed (the fail-open policy, see `PROBE_FAILURE_IS_LONG_FORM`).
pub open spec fn spec_long_form(probe: ProbeOutcome) -> bool {
    match probe {
        ProbeOutcome::Resolved { final_url } => !spec_is_short_url(final_url@),
        ProbeOutcome::Failed => PROBE_FAILURE_IS_LONG_FORM,
    }
}

/// Classifies one probe outcome as long-form or short-form.
pub fn classify_long_form(probe: &ProbeOutcome) -> (r: bool)
    ensures
        r == spec_long_form(*probe),
{
    match probe {
        ProbeOutcome::Resolved { final_url } => !is_short_url(final_url.as_str()),
        ProbeOutcome::Failed => PROBE_FAILURE_IS_LONG_FORM,
    }
}

/// One item of a channel's uploads collection, newest first, as the catalog
/// API reports it.
#[derive(Debug, PartialEq, Eq)]
pub struct UploadEntry {
    pub video_id: String,
    pub title: String,
    pub description: String,
    pub channel_title: String,
}

/// Mathematical model of an `UploadEntry`.
pub struct UploadEntryView {
    pub video_id: Seq<char>,
    pub title: Seq<char>,
    pub description: Seq<char>,
    pub channel_title: Seq<char>,
}

impl View for UploadEntry {
    type V = UploadEntryView;

    open spec fn view(&self) -> UploadEntryView {
        UploadEntryView {
            video_id: self.video_id@,
            title: self.title@,
            description: self.description@,
            channel_title: self.channel_title@,
        }
    }
}

impl DeepView for UploadEntry {
    type V = UploadEntryView;

    open spec fn deep_view(&self) -> UploadEntryView {
        self.view()
    }
}

/// The video an upload entry resolves to: its watch URL is always derived
/// from the entry's identifier, and its transcript starts absent.
pub open spec fn video_of_entry(e: UploadEntryView) -> VideoView {
    VideoView {
        id: e.video_id,
        title: e.title,
        description: e.description,
        channel_name: e.channel_title,
        url: watch_url_spec(e.video_id),
        transcript: None,
    }
}

/// Builds the `Video` an upload entry resolves to.
pub fn video_from_entry(entry: &UploadEntry) -> (v: Video)
    ensures
        v.deep_view() == video_of_entry(entry.deep_view()),
{
    Video {
        id: entry.video_id.clone(),
        title: entry.title.clone(),
        description: entry.description.clone(),
        channel_name: entry.channel_title.clone(),
        url: watch_url(entry.video_id.as_str()),
        transcript: None,
    }
}

/// The index of the first entry classified long-form, if any.
pub open spec fn first_long_index(flags: Seq<bool>) -> Option<int>
    decreases flags.len(),
{
    if flags.len() == 0 {
        None
    } else if flags[0] {
        Some(0int)
    } else {
        match first_long_index(flags.drop_first()) {
            Some(i) => Some(i + 1),
            None => None,
        }
    }
}

/// `first_long_index` of a sequence whose first `i` flags are false is `i`
/// when flag `i` is set, and nothing when the flags are exhausted.
proof fn lemma_first_long_index_at(flags: Seq<bool>, i: int)
    requires
        0 <= i <= flags.len(),
        forall|j: int| 0 <= j < i ==> !flags[j],
        i == flags.len() || flags[i],
    ensures
        i == flags.len() ==> first_long_index(flags) is None,
        i < flags.len() ==> first_long_index(flags) == Some(i),
    decreases i,
{
    if flags.len() == 0 {
    } else if i == 0 {
    } else {
        let t = flags.drop_first();
        lemma_first_long_index_at(t, i - 1);
    }
}

/// What the scan's outcome means: it yields nothing exactly when every upload
/// in the window is short-form — a valid outcome, not an error — and
/// otherwise it picks the first long-form upload, everything before it being
/// short-form.
pub proof fn lemma_scan_outcome(flags: Seq<bool>)
    ensures
        first_long_index(flags) is None <==> (forall|i: int| 0 <= i < flags.len() ==> !flags[i]),
        first_long_index(flags) matches Some(i) ==> 0 <= i < flags.len() && flags[i] && (forall|
            j: int,
        | 0 <= j < i ==> !flags[j]),
    decreases flags.len(),
{
    if flags.len() == 0 {
    } else if flags[0] {
    } else {
        let t = flags.drop_first();
        lemma_scan_outcome(t);
        assert(forall|i: int| 0 <= i < t.len() ==> t[i] == flags[i + 1]);
        if first_long_index(t) is None {
            assert forall|i: int| 0 <= i < flags.len() implies !flags[i] by {
                if i > 0 {
                    assert(!t[i - 1]);
                }
            }
        } else {
            let i0 = first_long_index(t)->Some_0;
            assert(first_long_index(flags) == Some(i0 + 1));
            assert(flags[i0 + 1] == t[i0]);
            assert forall|j: int| 0 <= j < i0 + 1 implies !flags[j] by {
                if j > 0 {
                    assert(!t[j - 1]);
                }
            }
        }
    }
}

/// Scans a window of upload entries, newest first, and returns the video of
/// the first entry classified long-form; yields nothing — a valid outcome,
/// not an error — when every entry in the window is short-form.
pub fn first_long_form(entries: &Vec<UploadEntry>, long_form: &Vec<bool>) -> (r: Option<Video>)
    requires
        entries@.len() == long_form@.len(),
    ensures
        r is Some <==> first_long_index(long_form@) is Some,
        r matches Some(v) ==> first_long_index(long_form@) matches Some(i) && v.deep_view()
            == video_of_entry(entries@[i].deep_view()),
{
    let n = entries.len();
    let mut i: usize = 0;
    while i < n
        invariant
            n == entries@.len(),
            entries@.len() == long_form@.len(),
            0 <= i <= n,
            forall|j: int| 0 <= j < i ==> !long_form@[j],
        decreases n - i,
    {
        if long_form[i] {
            proof {
                lemma_first_long_index_at(long_form@, i as int);
            }
            return Some(video_from_entry(&entries[i]));
        }
        i += 1;
    }
    proof {
        lemma_first_long_index_at(long_form@, n as int);
    }
    None
}

/// What one channel's resolution produced: its most recent long-form video, a
/// window with no long-form upload, or a per-channel error.
#[derive(Debug, PartialEq, Eq)]
pub enum ResolveOutcome {
    Found(Video),
    NoneFound,
    Failed(PipelineError),
}

/// Mathematical model of a `ResolveOutcome`; the error payload plays no part
/// in any stage output, so the model keeps only the failure itself.
pub enum ResolveOutcomeView {
    Found(VideoView),
    NoneFound,
    Failed,
}

impl View for ResolveOutcome {
    type V = ResolveOutcomeView;

    open spec fn view(&self) -> ResolveOutcomeView {
        match self {
            ResolveOutcome::Found(v) => ResolveOutcomeView::Found(v.deep_view()),
            ResolveOutcome::NoneFound => ResolveOutcomeView::NoneFound,
            ResolveOutcome::Failed(_) => ResolveOutcomeView::Failed,
        }
    }
}

impl DeepView for ResolveOutcome {
    type V = ResolveOutcomeView;

    open spec fn deep_view(&self) -> ResolveOutcomeView {
        self.view()
    }
}

/// The videos the resolve stage carries forward: those of the `Found`
/// outcomes, in channel-list order; channels that yielded nothing or failed
/// are dropped without aborting the run.
pub open spec fn resolved_videos(s: Seq<ResolveOutcomeView>) -> Seq<VideoView>
    decreases s.len(),
{
    if s.len() == 0 {
        Seq::empty()
    } else {
        resolved_videos(s.drop_last()) + (match s.last() {
            ResolveOutcomeView::Found(v) => seq![v],
            _ => Seq::empty(),
        })
    }
}

/// The resolve stage: applies per-channel failure isolation to the channel
/// outcomes, keeping exactly the resolved videos in order.
pub fn resolve_stage(outcomes: &Vec<ResolveOutcome>) -> (r: Vec<Video>)
    ensures
        r.deep_view() == resolved_videos(outcomes.deep_view()),
{
    let n = outcomes.len();
    let mut out: Vec<Video> = Vec::new();
    let mut i: usize = 0;
    while i < n
        invariant
            n == outcomes@.len(),
            0 <= i <= n,
            out.deep_view() == resolved_videos(outcomes.deep_view().take(i as int)),
        decreases n - i,
    {
        let ghost pre = outcomes.deep_view().take(i as int);
        let ghost post = outcomes.deep_view().take(i + 1int);
        proof {
            assert(post.drop_last() =~= pre);
        }
        match &outcomes[i] {
            ResolveOutcome::Found(v) => {
                let c = v.duplicate();
                out.push(c);
                proof {
                    assert(out.deep_view() =~= resolved_videos(post));
                }
            },
            _ => {
                proof {
                    assert(resolved_videos(post) =~= resolved_videos(pre));
                }
            },
        }
        i += 1;
    }
    proof {
        assert(outcomes.deep_view().take(n as int) =~= outcomes.deep_view());
    }
    out
}

/// Partial-failure isolation at the resolve boundary: the stage's output is
/// never longer than its input, and every video it carries forward came from
/// a channel whose outcome was `Found` — never from one that yielded "none
/// found" or an error.
pub proof fn lemma_resolve_isolation(s: Seq<ResolveOutcomeView>)
    ensures
        resolved_videos(s).len() <= s.len(),
        forall|j: int| 0 <= j < resolved_videos(s).len() ==> exists|i: int|
            0 <= i < s.len() && s[i] == ResolveOutcomeView::Found(#[trigger] resolved_videos(s)[j]),
    decreases s.len(),
{
    if s.len() == 0 {
    } else {
        let t = s.drop_last();
        lemma_resolve_isolation(t);
        assert forall|j: int| 0 <= j < resolved_videos(s).len() implies exists|i: int|
            0 <= i < s.len() && s[i] == ResolveOutcomeView::Found(#[trigger] resolved_videos(s)[j]) by {
            if j < resolved_videos(t).len() {
                let i0 = choose|i: int|
                    0 <= i < t.len() && t[i] == ResolveOutcomeView::Found(resolved_videos(t)[j]);
                assert(resolved_videos(s)[j] == resolved_videos(t)[j]);
                assert(s[i0] == ResolveOutcomeView::Found(resolved_videos(s)[j]));
            } else {
                assert(s.last() == ResolveOutcomeView::Found(resolved_videos(s)[j]));
                assert(s[s.len() - 1] == ResolveOutcomeView::Found(resolved_videos(s)[j]));
            }
        }
    }
}

} // verus!
