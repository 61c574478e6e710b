//! Icon discovery, download limits, frame choice and the size ladder.

use vstd::prelude::*;

use crate::text::{join, join_path};
use crate::weburl::{opt_view, resolve, url_join, ParsedUrl};

verus! {

/// Why an icon candidate could not be used.
#[derive(Clone, Debug)]
pub enum IconError {
    NotFound(String),
    Download(String),
    Decode(String),
}

impl IconError {
    /// The text of the failure.
    pub fn message(&self) -> (r: String)
        ensures
            self matches IconError::NotFound(s) ==> r@ == "no icons found for "@ + s@,
            self matches IconError::Download(s) ==> r@ == "download failed: "@ + s@,
            self matches IconError::Decode(s) ==> r@ == "decode failed: "@ + s@,
    {
        match self {
            IconError::NotFound(s) => String::from_str("no icons found for ").concat(s.as_str()),
            IconError::Download(s) => String::from_str("download failed: ").concat(s.as_str()),
            IconError::Decode(s) => String::from_str("decode failed: ").concat(s.as_str()),
        }
    }
}

/// The icon files written for one entity.
#[derive(Clone, Debug)]
pub struct IconResult {
    pub icon_id: String,
    pub rendered_paths: Vec<String>,
}

/// The icon cache directory under a cache root.
pub fn cache_dir_from_base(base: &str) -> (r: String)
    ensures
        r@ == join_path(base@, "icons"@),
{
    join(base, "icons")
}

/// The largest icon download accepted, in bytes (5 MiB).
pub const MAX_ICON_BYTES: u64 = 5 * 1024 * 1024;

/// The number of sizes in the icon ladder.
pub const LADDER_LEN: usize = 7;

/// The side, in pixels, of the `i`-th icon of the ladder.
pub open spec fn ladder_size(i: int) -> u32 {
    if i == 0 {
        16
    } else if i == 1 {
        32
    } else if i == 2 {
        48
    } else if i == 3 {
        64
    } else if i == 4 {
        128
    } else if i == 5 {
        256
    } else {
        512
    }
}

/// `-<N>x<N>.png` for the `i`-th size of the ladder.
pub open spec fn ladder_suffix(i: int) -> Seq<char> {
    if i == 0 {
        "-16x16.png"@
    } else if i == 1 {
        "-32x32.png"@
    } else if i == 2 {
        "-48x48.png"@
    } else if i == 3 {
        "-64x64.png"@
    } else if i == 4 {
        "-128x128.png"@
    } else if i == 5 {
        "-256x256.png"@
    } else {
        "-512x512.png"@
    }
}

/// The file holding the `i`-th size of the ladder for `icon_id` in `cache_dir`.
pub open spec fn ladder_path(cache_dir: Seq<char>, icon_id: Seq<char>, i: int) -> Seq<char> {
    join_path(cache_dir, icon_id + ladder_suffix(i))
}

/// The side of the `i`-th ladder icon.
pub fn icon_size(i: usize) -> (r: u32)
    requires
        i < LADDER_LEN,
    ensures
        r == ladder_size(i as int),
{
    if i == 0 {
        16
    } else if i == 1 {
        32
    } else if i == 2 {
        48
    } else if i == 3 {
        64
    } else if i == 4 {
        128
    } else if i == 5 {
        256
    } else {
        512
    }
}

fn size_suffix(i: usize) -> (r: &'static str)
    requires
        i < LADDER_LEN,
    ensures
        r@ == ladder_suffix(i as int),
{
    if i == 0 {
        "-16x16.png"
    } else if i == 1 {
        "-32x32.png"
    } else if i == 2 {
        "-48x48.png"
    } else if i == 3 {
        "-64x64.png"
    } else if i == 4 {
        "-128x128.png"
    } else if i == 5 {
        "-256x256.png"
    } else {
        "-512x512.png"
    }
}

/// One file of the ladder: its side in pixels and where it is written.
#[derive(Clone, Debug)]
pub struct LadderTarget {
    pub size: u32,
    pub path: String,
}

/// The seven files to write for `icon_id` in `cache_dir`, smallest first.
pub fn ladder_targets(cache_dir: &str, icon_id: &str) -> (r: Vec<LadderTarget>)
    ensures
        r@.len() == LADDER_LEN,
        forall|i: int|
            0 <= i < LADDER_LEN ==> (#[trigger] r@[i]).size == ladder_size(i) && r@[i].path@
                == ladder_path(cache_dir@, icon_id@, i),
{
    let mut out: Vec<LadderTarget> = Vec::new();
    let mut i: usize = 0;
    while i < LADDER_LEN
        invariant
            i <= LADDER_LEN,
            out@.len() == i,
            forall|k: int|
                0 <= k < i ==> (#[trigger] out@[k]).size == ladder_size(k) && out@[k].path@
                    == ladder_path(cache_dir@, icon_id@, k),
        decreases LADDER_LEN - i,
    {
        let name = String::from_str(icon_id).concat(size_suffix(i));
        out.push(LadderTarget { size: icon_size(i), path: join(cache_dir, name.as_str()) });
        i = i + 1;
    }
    out
}

/// The result of a fetch once every ladder file in `targets` was written.
pub fn icon_result(icon_id: &str, targets: &Vec<LadderTarget>) -> (r: IconResult)
    ensures
        r.icon_id@ == icon_id@,
        r.rendered_paths@.len() == targets@.len(),
        forall|i: int| 0 <= i < targets@.len() ==> (#[trigger] r.rendered_paths@[i])@ == targets@[i].path@,
{
    let mut paths: Vec<String> = Vec::new();
    let mut i: usize = 0;
    while i < targets.len()
        invariant
            i <= targets@.len(),
            paths@.len() == i,
            forall|k: int| 0 <= k < i ==> (#[trigger] paths@[k])@ == targets@[k].path@,
        decreases targets@.len() - i,
    {
        paths.push(targets[i].path.clone());
        i = i + 1;
    }
    IconResult { icon_id: String::from_str(icon_id), rendered_paths: paths }
}

/// A download whose announced length is over the limit is refused before its body is read.
pub fn content_length_acceptable(content_length: Option<u64>) -> (r: bool)
    ensures
        r == (content_length matches Some(n) ==> n <= MAX_ICON_BYTES),
{
    match content_length {
        Some(n) => n <= MAX_ICON_BYTES,
        None => true,
    }
}

/// A body of more bytes than the limit is refused.
pub fn body_size_acceptable(received: usize) -> (r: bool)
    ensures
        r == (received <= MAX_ICON_BYTES),
{
    received as u64 <= MAX_ICON_BYTES
}

/// `i` is the last position of a largest width in `widths`.
pub open spec fn is_last_widest(widths: Seq<u32>, i: int) -> bool {
    &&& 0 <= i < widths.len()
    &&& forall|j: int| 0 <= j < widths.len() ==> widths[j] <= widths[i]
    &&& forall|j: int| i < j < widths.len() ==> widths[j] < widths[i]
}

/// The frame of a multi-frame icon to decode: the widest, and the last of equally wide
/// ones; `None` for no frames.
pub fn widest_frame(widths: &Vec<u32>) -> (r: Option<usize>)
    ensures
        r is None <==> widths@.len() == 0,
        r matches Some(i) ==> is_last_widest(widths@, i as int),
{
    if widths.len() == 0 {
        return None;
    }
    let mut best: usize = 0;
    let mut i: usize = 1;
    while i < widths.len()
        invariant
            1 <= i <= widths@.len(),
            best < i,
            forall|j: int| 0 <= j < i ==> widths@[j] <= widths@[best as int],
            forall|j: int| best < j < i ==> widths@[j] < widths@[best as int],
        decreases widths@.len() - i,
    {
        if widths[i] >= widths[best] {
            best = i;
        }
        i = i + 1;
    }
    Some(best)
}

/// The `href` attribute (where present), in document order, of each element of `html`
/// that the CSS selector `selector` matches; empty where the selector does not parse.
pub uninterp spec fn link_hrefs(html: Seq<char>, selector: Seq<char>) -> Seq<Option<Seq<char>>>;

pub open spec fn string_views(s: Seq<String>) -> Seq<Seq<char>> {
    s.map_values(|x: String| x@)
}

pub open spec fn option_views(s: Seq<Option<String>>) -> Seq<Option<Seq<char>>> {
    s.map_values(|x: Option<String>| opt_view(x))
}

/// Relies on `scraper`: `Html::parse_document`, `Selector::parse`, `Html::select`
/// (document order) and `attr("href")`. The result depends on the two texts alone.
#[verifier::external_body]
fn select_link_hrefs(html: &str, selector: &str) -> (r: Vec<Option<String>>)
    ensures
        option_views(r@) == link_hrefs(html@, selector@),
{
    let doc = scraper::Html::parse_document(html);
    match scraper::Selector::parse(selector) {
        Ok(sel) => doc.select(&sel).map(|el| el.value().attr("href").map(|h| h.to_string())).collect(),
        Err(_) => Vec::new(),
    }
}

/// Links whose `rel` token list holds `icon`.
pub const ICON_SELECTOR: &'static str = "link[rel~=\"icon\"]";

/// Links whose `rel` token list holds `apple-touch-icon`.
pub const APPLE_ICON_SELECTOR: &'static str = "link[rel~=\"apple-touch-icon\"]";

/// Each of `hrefs` resolved against `base`, leaving out absent ones and those that do
/// not resolve.
pub open spec fn resolved_all(base: Seq<char>, hrefs: Seq<Option<Seq<char>>>) -> Seq<Seq<char>>
    decreases hrefs.len(),
{
    if hrefs.len() == 0 {
        Seq::empty()
    } else {
        let rest = resolved_all(base, hrefs.drop_last());
        match hrefs.last() {
            Some(h) => match url_join(base, h) {
                Some(u) => rest.push(u),
                None => rest,
            },
            None => rest,
        }
    }
}

/// `<base>/favicon.ico`, where it resolves.
pub open spec fn favicon_candidate(base: Seq<char>) -> Seq<Seq<char>> {
    match url_join(base, "/favicon.ico"@) {
        Some(u) => seq![u],
        None => Seq::empty(),
    }
}

/// The icon URLs to try for a page at `base` whose HTML is `html`, in order: links with
/// rel `icon`, then links with rel `apple-touch-icon`, then the site's `/favicon.ico`.
pub open spec fn icon_candidates(html: Seq<char>, base: Seq<char>) -> Seq<Seq<char>> {
    let from_page = if html.len() == 0 {
        Seq::empty()
    } else {
        resolved_all(base, link_hrefs(html, ICON_SELECTOR@)) + resolved_all(base, link_hrefs(html, APPLE_ICON_SELECTOR@))
    };
    from_page + favicon_candidate(base)
}

fn resolve_each(base: &ParsedUrl, hrefs: &Vec<Option<String>>, out: &mut Vec<String>)
    ensures
        string_views(final(out)@) == string_views(old(out)@) + resolved_all(base.href@, option_views(hrefs@)),
{
    let mut i: usize = 0;
    let ghost start = string_views(out@);
    while i < hrefs.len()
        invariant
            i <= hrefs@.len(),
            string_views(out@) == start + resolved_all(base.href@, option_views(hrefs@.subrange(0, i as int))),
        decreases hrefs@.len() - i,
    {
        let ghost prefix = hrefs@.subrange(0, i as int);
        let ghost next = hrefs@.subrange(0, i as int + 1);
        assert(option_views(next).drop_last() =~= option_views(prefix));
        assert(option_views(next).last() == opt_view(hrefs@[i as int]));
        let ghost before = out@;
        match &hrefs[i] {
            Some(h) => {
                match resolve(base, h.as_str()) {
                    Some(u) => {
                        out.push(u);
                        assert(string_views(out@) =~= string_views(before).push(out@.last()@));
                    },
                    None => {},
                }
            },
            None => {},
        }
        i = i + 1;
    }
    assert(hrefs@.subrange(0, hrefs@.len() as int) =~= hrefs@);
}

/// Discovers the icon URLs to try for the page at `base`, given its HTML (empty where the
/// page could not be fetched).
pub fn discover_icon_urls(html: &str, base: &ParsedUrl) -> (r: Vec<String>)
    ensures
        string_views(r@) == icon_candidates(html@, base.href@),
{
    let mut urls: Vec<String> = Vec::new();
    assert(string_views(urls@) =~= Seq::empty());
    if html.unicode_len() > 0 {
        let icons = select_link_hrefs(html, ICON_SELECTOR);
        resolve_each(base, &icons, &mut urls);
        let apple = select_link_hrefs(html, APPLE_ICON_SELECTOR);
        resolve_each(base, &apple, &mut urls);
    }
    let ghost page = string_views(urls@);
    match resolve(base, "/favicon.ico") {
        Some(u) => {
            urls.push(u);
            assert(string_views(urls@) =~= page.push(urls@.last()@));
        },
        None => {},
    }
    assert(string_views(urls@) =~= icon_candidates(html@, base.href@));
    urls
}

} // verus!

verus! {

/// The next thing an icon fetch does.
#[derive(Clone, Debug)]
pub enum IconStep {
    /// Download, decode and render this candidate.
    Download(String),
    /// Every candidate failed: synthesize the fallback icon.
    Fallback,
    /// A candidate was rendered: the fetch is over.
    Finished,
}

/// Progress through the candidates of one icon fetch: they are tried in order and the
/// first that renders ends the fetch.
#[derive(Clone, Debug)]
pub struct IconFetch {
    pub candidates: Vec<String>,
    pub tried: usize,
    pub succeeded: bool,
}

impl IconFetch {
    pub open spec fn wf(&self) -> bool {
        self.tried <= self.candidates@.len()
    }

    /// A fetch that has tried nothing yet.
    pub fn new(candidates: Vec<String>) -> (r: IconFetch)
        ensures
            r.wf(),
            r.candidates == candidates,
            r.tried == 0,
            !r.succeeded,
    {
        IconFetch { candidates, tried: 0, succeeded: false }
    }

    /// What to do next.
    pub fn next_step(&self) -> (r: IconStep)
        requires
            self.wf(),
        ensures
            self.succeeded ==> r is Finished,
            !self.succeeded && self.tried < self.candidates@.len() ==> (r matches IconStep::Download(u)
                && u@ == self.candidates@[self.tried as int]@),
            !self.succeeded && self.tried == self.candidates@.len() ==> r is Fallback,
    {
        if self.succeeded {
            IconStep::Finished
        } else if self.tried < self.candidates.len() {
            IconStep::Download(self.candidates[self.tried].clone())
        } else {
            IconStep::Fallback
        }
    }

    /// Records how the download of the current candidate ended.
    pub fn record_attempt(&mut self, rendered: bool)
        requires
            old(self).wf(),
            !old(self).succeeded,
            old(self).tried < old(self).candidates@.len(),
        ensures
            final(self).wf(),
            final(self).candidates == old(self).candidates,
            final(self).tried == old(self).tried + 1,
            final(self).succeeded == rendered,
    {
        let total = self.candidates.len();
        assert(self.tried < total);
        self.tried = self.tried + 1;
        self.succeeded = rendered;
    }
}

} // verus!
