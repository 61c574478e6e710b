//! The synthesized fallback icon's glyph and colour.

use vstd::prelude::*;

use rand::{Rng, SeedableRng};
use sha2::Digest;
use vstd::utf8::encode_utf8;

use crate::weburl::{opt_view, ParsedUrl};

verus! {

/// `s` with every leading `www.` removed.
pub open spec fn strip_www(s: Seq<char>) -> Seq<char>
    decreases s.len(),
{
    if s.len() >= 4 && s.subrange(0, 4) == "www."@ {
        strip_www(s.subrange(4, s.len() as int))
    } else {
        s
    }
}

/// `c` with an ASCII lower-case letter mapped to upper case.
pub open spec fn ascii_upper(c: char) -> char {
    if 'a' <= c <= 'z' {
        (((c as u32) - 32) as u8) as char
    } else {
        c
    }
}

/// The host that the fallback icon is derived from; `?` for a URL without one.
pub open spec fn fallback_host(host: Option<Seq<char>>) -> Seq<char> {
    match host {
        Some(h) => h,
        None => "?"@,
    }
}

/// The letter drawn on the fallback icon: the first character of the host after its
/// leading `www.`, upper-cased; `S` when nothing is left.
pub open spec fn fallback_glyph(host: Seq<char>) -> char {
    let s = strip_www(host);
    if s.len() > 0 {
        ascii_upper(s[0])
    } else {
        'S'
    }
}

/// The little-endian value of the first eight bytes of `b`.
pub open spec fn le_u64(b: Seq<u8>) -> nat
    decreases b.len(),
{
    if b.len() == 0 {
        0
    } else {
        b[0] as nat + 256 * le_u64(b.drop_first())
    }
}

/// The SHA-256 digest of `data`.
pub uninterp spec fn sha256_of(data: Seq<u8>) -> Seq<u8>;

/// The first three `u8` values drawn from `rand`'s `StdRng` seeded with `seed`.
pub uninterp spec fn seeded_rgb(seed: u64) -> (u8, u8, u8);

/// Relies on `sha2::Sha256`: the digest of `data`, 32 bytes long.
#[verifier::external_body]
fn sha256(data: &[u8]) -> (r: Vec<u8>)
    ensures
        r@ == sha256_of(data@),
        r@.len() == 32,
{
    sha2::Sha256::digest(data).to_vec()
}

/// Relies on `rand`'s `StdRng::seed_from_u64`, which is deterministic for a seed, and
/// three draws of `gen::<u8>()`.
#[verifier::external_body]
fn seeded_color(seed: u64) -> (r: (u8, u8, u8))
    ensures
        r == seeded_rgb(seed),
{
    let mut rng = rand::rngs::StdRng::seed_from_u64(seed);
    let red = rng.gen::<u8>();
    let green = rng.gen::<u8>();
    let blue = rng.gen::<u8>();
    (red, green, blue)
}

proof fn lemma_le_u64_bound(b: Seq<u8>)
    ensures
        le_u64(b) < pow256(b.len()),
    decreases b.len(),
{
    if b.len() > 0 {
        lemma_le_u64_bound(b.drop_first());
        assert(le_u64(b) <= 255 + 256 * (pow256((b.len() - 1) as nat) - 1)) by (nonlinear_arith)
            requires
                le_u64(b) == b[0] as nat + 256 * le_u64(b.drop_first()),
                b[0] <= 255,
                le_u64(b.drop_first()) < pow256((b.len() - 1) as nat),
        ;
    }
}

pub open spec fn pow256(n: nat) -> nat
    decreases n,
{
    if n == 0 {
        1
    } else {
        256 * pow256((n - 1) as nat)
    }
}

/// The value of `b[0..8]` read as a little-endian `u64`.
pub fn u64_from_le(b: &Vec<u8>) -> (r: u64)
    requires
        b@.len() >= 8,
    ensures
        r == le_u64(b@.subrange(0, 8)),
{
    let ghost first = b@.subrange(0, 8);
    let mut v: u64 = 0;
    let mut i: usize = 8;
    assert(first.subrange(8, 8) =~= Seq::<u8>::empty());
    while i > 0
        invariant
            i <= 8,
            b@.len() >= 8,
            first == b@.subrange(0, 8),
            v == le_u64(first.subrange(i as int, 8)),
            v < pow256((8 - i) as nat),
        decreases i,
    {
        let ghost tail = first.subrange(i as int - 1, 8);
        assert(tail.drop_first() =~= first.subrange(i as int, 8));
        assert(pow256((8 - i + 1) as nat) == 256 * pow256((8 - i) as nat));
        assert(pow256(8) == 0x1_0000_0000_0000_0000) by {
            reveal_with_fuel(pow256, 9);
        }
        assert(pow256((8 - i + 1) as nat) <= pow256(8)) by {
            lemma_pow256_mono((8 - i + 1) as nat, 8);
        }
        let byte = b[i - 1];
        assert(byte as nat + 256 * (v as nat) < pow256((8 - i + 1) as nat)) by (nonlinear_arith)
            requires
                byte <= 255,
                v < pow256((8 - i) as nat),
                pow256((8 - i + 1) as nat) == 256 * pow256((8 - i) as nat),
        ;
        v = byte as u64 + 256 * v;
        i = i - 1;
    }
    assert(first.subrange(0, 8) =~= first);
    v
}

proof fn lemma_pow256_mono(a: nat, b: nat)
    requires
        a <= b,
    ensures
        pow256(a) <= pow256(b),
    decreases b,
{
    if a < b {
        lemma_pow256_mono(a, (b - 1) as nat);
    }
}

/// What the fallback icon of a site looks like: a glyph on a background colour.
#[derive(Clone, Copy, Debug, PartialEq, Eq, Structural)]
pub struct FallbackStyle {
    pub glyph: char,
    pub red: u8,
    pub green: u8,
    pub blue: u8,
}

/// The seed of the background colour: the first eight bytes of the host's SHA-256 digest,
/// little-endian.
pub open spec fn host_seed(host: Seq<char>) -> nat {
    le_u64(sha256_of(encode_utf8(host)).subrange(0, 8))
}

/// The fallback style of a site with the given host: a function of the host alone, so
/// that the same site always gets the same icon.
pub open spec fn fallback_style_of(host: Option<Seq<char>>) -> FallbackStyle {
    let h = fallback_host(host);
    let c = seeded_rgb(host_seed(h) as u64);
    FallbackStyle { glyph: fallback_glyph(h), red: c.0, green: c.1, blue: c.2 }
}

fn strip_www_prefix(s: &str) -> (r: String)
    ensures
        r@ == strip_www(s@),
{
    let n = s.unicode_len();
    let mut i: usize = 0;
    assert(s@.subrange(0, n as int) =~= s@);
    while n - i >= 4 && String::from_str(s.substring_char(i, i + 4)) == String::from_str("www.")
        invariant
            n == s@.len(),
            i <= n,
            strip_www(s@) == strip_www(s@.subrange(i as int, n as int)),
        decreases n - i,
    {
        let ghost t = s@.subrange(i as int, n as int);
        assert(t.subrange(0, 4) =~= s@.subrange(i as int, i + 4));
        assert(t.subrange(4, t.len() as int) =~= s@.subrange(i + 4, n as int));
        i = i + 4;
    }
    let ghost t = s@.subrange(i as int, n as int);
    if n - i >= 4 {
        assert(t.subrange(0, 4) =~= s@.subrange(i as int, i + 4));
    }
    String::from_str(s.substring_char(i, n))
}

fn upper_ascii(c: char) -> (r: char)
    ensures
        r == ascii_upper(c),
{
    if 'a' <= c && c <= 'z' {
        (((c as u32) - 32) as u8) as char
    } else {
        c
    }
}

/// The letter for the fallback icon of a site with host `host`.
pub fn glyph_for_host(host: &str) -> (r: char)
    ensures
        r == fallback_glyph(host@),
{
    let rest = strip_www_prefix(host);
    if rest.as_str().unicode_len() > 0 {
        upper_ascii(rest.as_str().get_char(0))
    } else {
        'S'
    }
}

/// The seed of the background colour for a site with host `host`.
pub fn seed_for_host(host: &str) -> (r: u64)
    ensures
        r == host_seed(host@),
{
    let digest = sha256(host.as_bytes());
    u64_from_le(&digest)
}

/// The fallback style for the site of `url`.
pub fn fallback_style(url: &ParsedUrl) -> (r: FallbackStyle)
    ensures
        r == fallback_style_of(opt_view(url.host)),
{
    let host = match &url.host {
        Some(h) => h.clone(),
        None => String::from_str("?"),
    };
    let glyph = glyph_for_host(host.as_str());
    let seed = seed_for_host(host.as_str());
    let (red, green, blue) = seeded_color(seed);
    FallbackStyle { glyph, red, green, blue }
}

/// The fallback icon depends on the site's host alone: two sites with the same host get
/// the same glyph and colour.
pub proof fn lemma_fallback_deterministic(a: ParsedUrl, b: ParsedUrl)
    requires
        opt_view(a.host) == opt_view(b.host),
    ensures
        fallback_style_of(opt_view(a.host)) == fallback_style_of(opt_view(b.host)),
{
}

} // verus!
