//! Resolution of the image references of rendered HTML.
//!
//! An image reference is `<img src="SRC"` where SRC is one to 2048
//! characters other than `"`. Embedded and `file://` sources and images of
//! trusted hosts are kept; other remote images are replaced by a neutral
//! placeholder; any other source is a path relative to the document's
//! directory, decided on what the filesystem says of it (an
//! [`ImageLookup`]).
use vstd::prelude::*;
use crate::paths::{is_separator, Platform};
use crate::text::{
    begins_with, chars_of, lemma_run_end, occurs_at, occurs_at_exec, run_end,
    run_end_exec, same_text, substring_of,
};

verus! {

/// The longest source an image reference may carry.
pub const MAX_IMAGE_SRC_LEN: usize = 2048;

/// What a blocked image is replaced by: a neutral "blocked" graphic.
pub const BLOCKED_IMAGE_TAG: &'static str = "<img src=\"data:image/svg+xml;base64,PHN2ZyB3aWR0aD0iMjAwIiBoZWlnaHQ9IjEwMCIgeG1sbnM9Imh0dHA6Ly93d3cudzMub3JnLzIwMDAvc3ZnIj48cmVjdCB3aWR0aD0iMTAwJSIgaGVpZ2h0PSIxMDAlIiBmaWxsPSIjZGRkIi8+PHRleHQgeD0iNTAlIiB5PSI1MCUiIGZvbnQtZmFtaWx5PSJBcmlhbCwgc2Fucy1zZXJpZiIgZm9udC1zaXplPSIxNCIgZmlsbD0iIzk5OSIgdGV4dC1hbmNob3I9Im1pZGRsZSIgZHk9Ii4zZW0iPkJsb2NrZWQgSW1hZ2U8L3RleHQ+PC9zdmc+\" alt=\"Blocked unsafe image\"";

pub open spec fn img_open() -> Seq<char> {
    "<img src=\""@
}

/// The kinds of image source.
#[derive(Clone, Copy, Debug, PartialEq, Eq, Structural)]
pub enum ImageClass {
    /// `file://` or `data:image/`: kept as it is.
    Embedded,
    /// `http://` or `https://` on a trusted host: kept as it is.
    TrustedRemote,
    /// `http://` or `https://` on any other host: blocked.
    UntrustedRemote,
    /// Anything else: a path relative to the document's directory.
    Local,
}

/// What the filesystem says of a local image joined to the document's
/// directory: its canonical form and that of the directory where
/// canonicalization succeeded, and whether the joined path exists.
#[derive(Clone, Debug)]
pub struct ImageLookup {
    pub canonical: Option<String>,
    pub canonical_base: Option<String>,
    pub exists: bool,
}

pub open spec fn is_authority_stop(c: char) -> bool {
    c == '/' || c == '?' || c == '#'
}

/// The end of the authority part that begins at `i`.
pub open spec fn authority_end(s: Seq<char>, i: int) -> int
    decreases s.len() - i,
{
    if i < 0 || i >= s.len() {
        if i < 0 { 0 } else { i }
    } else if is_authority_stop(s[i]) {
        i
    } else {
        authority_end(s, i + 1)
    }
}

pub open spec fn is_remote(s: Seq<char>) -> bool {
    begins_with(s, "http://"@) || begins_with(s, "https://"@)
}

/// The authority (`user@host:port`) of a remote source.
pub open spec fn url_authority(s: Seq<char>) -> Seq<char> {
    let a = if begins_with(s, "https://"@) { 8int } else { 7int };
    s.subrange(a, authority_end(s, a))
}

/// The index just after the last `@` of `s[..i]`, or 0.
pub open spec fn after_last_at(s: Seq<char>, i: int) -> int
    decreases i,
{
    if i <= 0 {
        0
    } else if s[i - 1] == '@' {
        i
    } else {
        after_last_at(s, i - 1)
    }
}

/// The host of an authority: what follows its user part (up to the last
/// `@`) and precedes the port (from the next `:`).
pub open spec fn authority_host(auth: Seq<char>) -> Seq<char> {
    let h = auth.subrange(after_last_at(auth, auth.len() as int), auth.len() as int);
    h.subrange(0, run_end(h, ':', 0))
}

/// The hosts whose images are embedded without question.
pub open spec fn is_trusted_host(h: Seq<char>) -> bool {
    h == "httpbin.org"@ || h == "via.placeholder.com"@ || h == "picsum.photos"@ || h
        == "images.unsplash.com"@ || h == "raw.githubusercontent.com"@
}

/// A remote source is trusted when its host is on the trusted list.
pub open spec fn is_trusted_remote(s: Seq<char>) -> bool {
    is_trusted_host(authority_host(url_authority(s)))
}

pub open spec fn image_class(s: Seq<char>) -> ImageClass {
    if begins_with(s, "file://"@) || begins_with(s, "data:image/"@) {
        ImageClass::Embedded
    } else if is_remote(s) {
        if is_trusted_remote(s) {
            ImageClass::TrustedRemote
        } else {
            ImageClass::UntrustedRemote
        }
    } else {
        ImageClass::Local
    }
}

/// `p` is `base` or lies below it, component by component.
pub open spec fn path_within(p: Seq<char>, base: Seq<char>, platform: Platform) -> bool {
    p == base || (begins_with(p, base) && ((base.len() > 0 && is_separator(
        base.last(),
        platform,
    )) || (p.len() > base.len() && is_separator(p[base.len() as int], platform))))
}

/// The reference as found.
pub open spec fn image_tag(src: Seq<char>) -> Seq<char> {
    img_open() + src + "\""@
}

/// What a local image becomes, once both canonical forms (the image's and
/// its directory's) are known: blocked when the image lies outside the
/// directory, else a `file://` link to its canonical path when it exists,
/// else kept. Where either canonical form is missing, containment cannot be
/// shown and the reference is kept.
pub open spec fn local_replacement(src: Seq<char>, lookup: Option<ImageLookup>, platform: Platform) -> Seq<
    char,
> {
    match lookup {
        None => image_tag(src),
        Some(l) => if l.canonical is Some && l.canonical_base is Some {
            if !path_within(l.canonical->0@, l.canonical_base->0@, platform) {
                BLOCKED_IMAGE_TAG@
            } else if l.exists {
                "<img src=\"file://"@ + l.canonical->0@ + "\""@
            } else {
                image_tag(src)
            }
        } else {
            image_tag(src)
        },
    }
}

/// What an image reference becomes.
pub open spec fn image_replacement(src: Seq<char>, lookup: Option<ImageLookup>, platform: Platform) -> Seq<
    char,
> {
    match image_class(src) {
        ImageClass::Embedded => image_tag(src),
        ImageClass::TrustedRemote => image_tag(src),
        ImageClass::UntrustedRemote => BLOCKED_IMAGE_TAG@,
        ImageClass::Local => local_replacement(src, lookup, platform),
    }
}

/// The end (the closing quote) of the source of the reference at `s`.
pub open spec fn image_at(h: Seq<char>, s: int) -> Option<int> {
    if occurs_at(h, img_open(), s) {
        let ss = s + img_open().len();
        let e = run_end(h, '"', ss);
        if 1 <= e - ss <= MAX_IMAGE_SRC_LEN && e < h.len() {
            Some(e)
        } else {
            None
        }
    } else {
        None
    }
}

pub proof fn lemma_image_at(h: Seq<char>, s: int)
    requires
        0 <= s,
    ensures
        image_at(h, s) matches Some(e) ==> s + img_open().len() < e < h.len(),
{
    if occurs_at(h, img_open(), s) {
        lemma_run_end(h, '"', s + img_open().len());
    }
}

/// The sources of the references in `h[i..]`, in order.
pub open spec fn sources_from(h: Seq<char>, i: int) -> Seq<Seq<char>>
    decreases h.len() - i,
{
    if i < 0 || i >= h.len() {
        Seq::empty()
    } else {
        match image_at(h, i) {
            Some(e) => {
                proof {
                    lemma_image_at(h, i);
                }
                seq![h.subrange(i + img_open().len(), e)] + sources_from(h, e + 1)
            },
            None => sources_from(h, i + 1),
        }
    }
}

pub open spec fn image_sources_of(h: Seq<char>) -> Seq<Seq<char>> {
    sources_from(h, 0)
}

pub open spec fn lookup_at(lookups: Seq<Option<ImageLookup>>, k: int) -> Option<ImageLookup> {
    if 0 <= k < lookups.len() {
        lookups[k]
    } else {
        None
    }
}

/// `h[i..]` with its references, the `k`-th first, replaced.
pub open spec fn rewrite_from(
    h: Seq<char>,
    i: int,
    lookups: Seq<Option<ImageLookup>>,
    k: int,
    platform: Platform,
) -> Seq<char>
    decreases h.len() - i,
{
    if i < 0 || i >= h.len() {
        Seq::empty()
    } else {
        match image_at(h, i) {
            Some(e) => {
                proof {
                    lemma_image_at(h, i);
                }
                image_replacement(
                    h.subrange(i + img_open().len(), e),
                    lookup_at(lookups, k),
                    platform,
                ) + rewrite_from(h, e + 1, lookups, k + 1, platform)
            },
            None => seq![h[i]] + rewrite_from(h, i + 1, lookups, k, platform),
        }
    }
}

/// The document with each reference replaced, the `k`-th decided on
/// `lookups[k]`.
pub open spec fn rewrite_images_of(
    h: Seq<char>,
    lookups: Seq<Option<ImageLookup>>,
    platform: Platform,
) -> Seq<char> {
    rewrite_from(h, 0, lookups, 0, platform)
}

fn authority_end_exec(s: &Vec<char>, i: usize) -> (r: usize)
    requires
        i <= s@.len(),
    ensures
        r as int == authority_end(s@, i as int),
        i <= r <= s@.len(),
{
    let mut j: usize = i;
    while j < s.len() && !(s[j] == '/' || s[j] == '?' || s[j] == '#')
        invariant
            i <= j <= s@.len(),
            authority_end(s@, i as int) == authority_end(s@, j as int),
        decreases s@.len() - j,
    {
        j = j + 1;
    }
    j
}

fn is_trusted_host_exec(h: &str) -> (r: bool)
    ensures
        r == is_trusted_host(h@),
{
    same_text(h, "httpbin.org") || same_text(h, "via.placeholder.com") || same_text(
        h,
        "picsum.photos",
    ) || same_text(h, "images.unsplash.com") || same_text(h, "raw.githubusercontent.com")
}

fn begins_with_exec(s: &Vec<char>, p: &str) -> (r: bool)
    ensures
        r == begins_with(s@, p@),
{
    let pv = chars_of(p);
    occurs_at_exec(s, &pv, 0)
}

/// The kind of an image source.
pub fn classify_image(src: &str) -> (r: ImageClass)
    ensures
        r == image_class(src@),
{
    let s = chars_of(src);
    if begins_with_exec(&s, "file://") || begins_with_exec(&s, "data:image/") {
        return ImageClass::Embedded;
    }
    let https = begins_with_exec(&s, "https://");
    if !(begins_with_exec(&s, "http://") || https) {
        return ImageClass::Local;
    }
    proof {
        reveal_strlit("https://");
        reveal_strlit("http://");
    }
    let a: usize = if https { 8 } else { 7 };
    let end = authority_end_exec(&s, a);
    let auth = chars_of(substring_of(&s, a, end).as_str());
    assert(auth@ == url_authority(src@));
    let mut from: usize = auth.len();
    while from > 0 && auth[from - 1] != '@'
        invariant
            from <= auth@.len(),
            after_last_at(auth@, auth@.len() as int) == after_last_at(auth@, from as int),
        decreases from,
    {
        from = from - 1;
    }
    let hv = chars_of(substring_of(&auth, from, auth.len()).as_str());
    let host_end = run_end_exec(&hv, ':', 0);
    proof {
        lemma_run_end(hv@, ':', 0);
    }
    let host = substring_of(&hv, 0, host_end);
    if is_trusted_host_exec(host.as_str()) {
        ImageClass::TrustedRemote
    } else {
        ImageClass::UntrustedRemote
    }
}

/// Whether an image source may be embedded: every source but a remote one
/// whose host is not trusted.
pub fn validate_image_url(url: &str) -> (r: bool)
    ensures
        r == (image_class(url@) != ImageClass::UntrustedRemote),
{
    classify_image(url) != ImageClass::UntrustedRemote
}

/// Whether a source is a local path, whose fate depends on an
/// [`ImageLookup`].
pub fn needs_lookup(src: &str) -> (r: bool)
    ensures
        r == (image_class(src@) == ImageClass::Local),
{
    classify_image(src) == ImageClass::Local
}

/// Whether `p` is `base` or lies below it, component by component.
pub fn is_within(p: &str, base: &str, platform: Platform) -> (r: bool)
    ensures
        r == path_within(p@, base@, platform),
{
    if same_text(p, base) {
        return true;
    }
    let pv = chars_of(p);
    let bv = chars_of(base);
    if !occurs_at_exec(&pv, &bv, 0) {
        return false;
    }
    if bv.len() > 0 {
        let last = bv[bv.len() - 1];
        if last == '/' || (platform == Platform::Windows && last == '\\') {
            return true;
        }
    }
    if pv.len() > bv.len() {
        let c = pv[bv.len()];
        c == '/' || (platform == Platform::Windows && c == '\\')
    } else {
        false
    }
}

/// What one image reference becomes.
pub fn replace_image(src: &str, lookup: &Option<ImageLookup>, platform: Platform) -> (r: String)
    ensures
        r@ == image_replacement(src@, *lookup, platform),
{
    let tag = String::from_str("<img src=\"").concat(src).concat("\"");
    match classify_image(src) {
        ImageClass::Embedded => tag,
        ImageClass::TrustedRemote => tag,
        ImageClass::UntrustedRemote => String::from_str(BLOCKED_IMAGE_TAG),
        ImageClass::Local => match lookup {
            None => tag,
            Some(l) => match (&l.canonical, &l.canonical_base) {
                (Some(c), Some(b)) => {
                    if !is_within(c.as_str(), b.as_str(), platform) {
                        String::from_str(BLOCKED_IMAGE_TAG)
                    } else if l.exists {
                        String::from_str("<img src=\"file://").concat(c.as_str()).concat("\"")
                    } else {
                        tag
                    }
                },
                _ => tag,
            },
        },
    }
}

/// The image references of `h` from `i` on.
struct ImageScan {
    open: Vec<char>,
}

impl ImageScan {
    spec fn wf(&self) -> bool {
        self.open@ == img_open()
    }

    fn new() -> (r: ImageScan)
        ensures
            r.wf(),
    {
        ImageScan { open: chars_of("<img src=\"") }
    }

    fn image_at(&self, h: &Vec<char>, s: usize) -> (r: Option<usize>)
        requires
            self.wf(),
            s <= h@.len(),
        ensures
            r matches Some(e) ==> image_at(h@, s as int) == Some(e as int),
            r is None ==> image_at(h@, s as int) is None,
    {
        let n = h.len();
        if !occurs_at_exec(h, &self.open, s) {
            return None;
        }
        let ss = s + self.open.len();
        let e = run_end_exec(h, '"', ss);
        proof {
            lemma_run_end(h@, '"', ss as int);
        }
        if e - ss < 1 || e - ss > MAX_IMAGE_SRC_LEN || e >= n {
            None
        } else {
            Some(e)
        }
    }
}

/// The sources of the image references of `html`, in order.
pub fn image_sources(html: &str) -> (r: Vec<String>)
    ensures
        r@.map_values(|s: String| s@) == image_sources_of(html@),
{
    let scan = ImageScan::new();
    let h = chars_of(html);
    let mut out: Vec<String> = Vec::new();
    let mut i: usize = 0;
    while i < h.len()
        invariant
            scan.wf(),
            h@ == html@,
            i <= h@.len(),
            out@.map_values(|s: String| s@) + sources_from(h@, i as int) == image_sources_of(h@),
        decreases h@.len() - i,
    {
        match scan.image_at(&h, i) {
            Some(e) => {
                proof {
                    lemma_image_at(h@, i as int);
                }
                let src = substring_of(&h, i + scan.open.len(), e);
                let ghost before = out@.map_values(|s: String| s@);
                out.push(src);
                assert(out@.map_values(|s: String| s@) =~= before.push(src@));
                assert(before.push(src@) + sources_from(h@, e + 1) =~= before + sources_from(
                    h@,
                    i as int,
                ));
                i = e + 1;
            },
            None => {
                i = i + 1;
            },
        }
    }
    assert(out@.map_values(|s: String| s@) =~= image_sources_of(h@));
    out
}

/// `html` with each image reference replaced: the `k`-th is decided on
/// `lookups[k]` (no lookup, or none given, keeps a local image as it is).
pub fn rewrite_images(html: &str, lookups: &Vec<Option<ImageLookup>>, platform: Platform) -> (r:
    String)
    ensures
        r@ == rewrite_images_of(html@, lookups@, platform),
{
    let scan = ImageScan::new();
    let h = chars_of(html);
    let mut out = String::new();
    let mut i: usize = 0;
    let mut k: usize = 0;
    let none: Option<ImageLookup> = None;
    while i < h.len()
        invariant
            scan.wf(),
            h@ == html@,
            none is None,
            i <= h@.len(),
            k <= i,
            out@ + rewrite_from(h@, i as int, lookups@, k as int, platform) == rewrite_images_of(
                h@,
                lookups@,
                platform,
            ),
        decreases h@.len() - i,
    {
        match scan.image_at(&h, i) {
            Some(e) => {
                proof {
                    lemma_image_at(h@, i as int);
                }
                let src = substring_of(&h, i + scan.open.len(), e);
                let lookup = if k < lookups.len() {
                    &lookups[k]
                } else {
                    &none
                };
                let rep = replace_image(src.as_str(), lookup, platform);
                let ghost before = out@;
                out.append(rep.as_str());
                assert(out@ + rewrite_from(h@, e + 1, lookups@, k + 1, platform) =~= before
                    + rewrite_from(h@, i as int, lookups@, k as int, platform));
                i = e + 1;
                k = k + 1;
            },
            None => {
                let ghost before = out@;
                out.push(h[i]);
                assert(out@ + rewrite_from(h@, i + 1, lookups@, k as int, platform) =~= before
                    + rewrite_from(h@, i as int, lookups@, k as int, platform));
                i = i + 1;
            },
        }
    }
    assert(out@ =~= rewrite_images_of(h@, lookups@, platform));
    out
}


/// A local image whose canonical path lies outside the document's
/// canonical directory is replaced by the placeholder, whether or not it
/// exists: never by a link to where it leads.
pub proof fn lemma_escaping_image_blocked(src: Seq<char>, lookup: ImageLookup, platform: Platform)
    requires
        image_class(src) == ImageClass::Local,
        lookup.canonical is Some,
        lookup.canonical_base is Some,
        !path_within(lookup.canonical->0@, lookup.canonical_base->0@, platform),
    ensures
        image_replacement(src, Some(lookup), platform) == BLOCKED_IMAGE_TAG@,
{
}

/// A remote image on a host that is not trusted is replaced by the
/// placeholder, whatever the lookup.
pub proof fn lemma_untrusted_host_blocked(
    src: Seq<char>,
    lookup: Option<ImageLookup>,
    platform: Platform,
)
    requires
        is_remote(src),
        !is_trusted_remote(src),
    ensures
        image_replacement(src, lookup, platform) == BLOCKED_IMAGE_TAG@,
{
    reveal_strlit("http://");
    reveal_strlit("https://");
    reveal_strlit("file://");
    reveal_strlit("data:image/");
    if begins_with(src, "file://"@) {
        assert(src.subrange(0, 7)[0] == 'f');
        if begins_with(src, "http://"@) {
            assert(src.subrange(0, 7)[0] == 'h');
        } else {
            assert(src.subrange(0, 8)[0] == 'h');
        }
    }
    if begins_with(src, "data:image/"@) {
        assert(src.subrange(0, 11)[0] == 'd');
        if begins_with(src, "http://"@) {
            assert(src.subrange(0, 7)[0] == 'h');
        } else {
            assert(src.subrange(0, 8)[0] == 'h');
        }
    }
}

} // verus!
