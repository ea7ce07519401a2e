//! Media of a post: from the images that a mirror embeds to their upstream addresses.
//!
//! A mirror shows an image under an address of its own. The last segment of that
//! address holds the upstream path of the image, either written out behind the
//! marker `media`, with `%2F` for each `/`, or as a base64 token. The upstream
//! address is that path, joined to the media host.

use vstd::prelude::*;
use vstd::utf8::{decode_utf8, encode_utf8, encode_utf8_decode_utf8, encode_utf8_valid_utf8, valid_utf8};
use crate::text::{
    final_segment, has_prefix, last_segment, replace, replace_all, same_text, starts_with,
};
use crate::web::{url_join, url_parse, Url, UrlView};

verus! {

/// The host that serves the media of posts.
pub const MEDIA_HOST: &'static str = "https://pbs.twimg.com/";

/// The domain of the host that serves the media of posts.
pub const MEDIA_DOMAIN: &'static str = "pbs.twimg.com";

/// What an upstream media path starts with.
pub const MEDIA_MARKER: &'static str = "media";

/// How a mirror writes a `/` inside one segment of an address.
pub const ENCODED_SLASH: &'static str = "%2F";

/// What separates the segments of a path.
pub const SLASH: &'static str = "/";

/// The selector of the elements that embed an image.
pub const IMAGE_SELECTOR: &'static str = "img[src]";

/// The attribute that holds the address of an embedded image.
pub const SOURCE_ATTRIBUTE: &'static str = "src";

/// The bytes that the standard base64 engine of the `base64` crate decodes from
/// `input`, or `None` where it reports an error.
pub uninterp spec fn base64_decode(input: Seq<char>) -> Option<Seq<u8>>;

/// For the hypertext `document`, read as a whole document by the `scraper` crate: the
/// value of the attribute `attribute` on each element that matches the CSS selector
/// `selector`, in the order in which the crate hands the elements out, `None` for an
/// element without it; or `None` where `selector` is not a selector.
pub uninterp spec fn html_attributes(
    document: Seq<char>,
    selector: Seq<char>,
    attribute: Seq<char>,
) -> Option<Seq<Option<Seq<char>>>>;

/// Calls `decode` of `base64::engine::general_purpose::STANDARD` on `input`. The
/// contract claims that the outcome is [`base64_decode`] of the input.
#[verifier::external_body]
fn decode_standard(input: &str) -> (r: Option<Vec<u8>>)
    ensures
        r matches Some(b) ==> base64_decode(input@) == Some(b@),
        r is None ==> base64_decode(input@) is None,
{
    base64::Engine::decode(&base64::engine::general_purpose::STANDARD, input).ok()
}

/// Calls `String::from_utf8`: the text that the bytes encode, where they are valid
/// UTF-8, and `None` where they are not.
#[verifier::external_body]
fn utf8_text(bytes: Vec<u8>) -> (r: Option<String>)
    ensures
        r matches Some(s) ==> valid_utf8(bytes@) && s@ == decode_utf8(bytes@),
        r is None ==> !valid_utf8(bytes@),
{
    String::from_utf8(bytes).ok()
}

/// Calls `scraper::Selector::parse` on `selector` and `scraper::Html::parse_document`
/// on `document`, walks `select` and copies out what `attr` returns for `attribute`
/// on each element. The contract claims that the outcome is [`html_attributes`] of
/// the three texts. The parser of selectors descends once for each nested negation,
/// without a bound of its own, so only the selector of images is admitted.
#[verifier::external_body]
fn select_attribute(document: &str, selector: &str, attribute: &str) -> (r: Option<
    Vec<Option<String>>,
>)
    requires
        selector@ == IMAGE_SELECTOR@,
    ensures
        r matches Some(v) ==> html_attributes(document@, selector@, attribute@) == Some(
            v.deep_view(),
        ),
        r is None ==> html_attributes(document@, selector@, attribute@) is None,
{
    let chosen = scraper::Selector::parse(selector).ok()?;
    let html = scraper::Html::parse_document(document);
    Some(html.select(&chosen).map(|e| e.value().attr(attribute).map(String::from)).collect())
}

/// The text that decoded bytes stand for, where there are bytes and they are valid
/// UTF-8.
pub open spec fn text_of_bytes(decoded: Option<Seq<u8>>) -> Option<Seq<char>> {
    match decoded {
        Some(b) => if valid_utf8(b) {
            Some(decode_utf8(b))
        } else {
            None
        },
        None => None,
    }
}

/// The upstream path that the last segment of an image's address on a mirror holds.
/// `decoded` is what base64 decoding makes of that segment.
pub open spec fn path_in_segment(segment: Seq<char>, decoded: Option<Seq<u8>>) -> Option<
    Seq<char>,
> {
    if starts_with(segment, MEDIA_MARKER@) {
        Some(replace_all(segment, ENCODED_SLASH@, SLASH@))
    } else {
        text_of_bytes(decoded)
    }
}

/// The upstream path of the image that a mirror shows under the path `path`: what
/// the last segment of `path` holds.
pub open spec fn image_id(path: Seq<char>) -> Option<Seq<char>> {
    match final_segment(path) {
        Some(segment) => path_in_segment(segment, base64_decode(segment)),
        None => None,
    }
}

/// The address on the media host of the media with the upstream path `id`: the path
/// joined to the media host, where that gives an address on the media host.
pub open spec fn media_address(id: Seq<char>) -> Option<UrlView> {
    match url_join(MEDIA_HOST@, id) {
        Some(url) => if url.domain == Some(MEDIA_DOMAIN@) {
            Some(url)
        } else {
            None
        },
        None => None,
    }
}

/// The upstream address of the image that a mirror shows at `address`.
pub open spec fn twi_image(address: UrlView) -> Option<UrlView> {
    match image_id(address.path) {
        Some(id) => media_address(id),
        None => None,
    }
}

/// The address that an embedded image's source attribute holds.
pub open spec fn source_address(source: Option<Seq<char>>) -> Option<UrlView> {
    match source {
        Some(s) => url_parse(s),
        None => None,
    }
}

/// The addresses that the source attributes `sources` hold, without those that hold
/// none.
pub open spec fn source_addresses(sources: Seq<Option<Seq<char>>>) -> Seq<UrlView> {
    sources.filter_map(|s: Option<Seq<char>>| source_address(s))
}

/// The addresses on the mirror of the images that `description` embeds.
pub open spec fn nitter_images(description: Seq<char>) -> Seq<UrlView> {
    match html_attributes(description, IMAGE_SELECTOR@, SOURCE_ATTRIBUTE@) {
        Some(sources) => source_addresses(sources),
        None => Seq::empty(),
    }
}

/// The upstream addresses of the images that a mirror shows at `addresses`, without
/// those that cannot be resolved.
pub open spec fn twi_images_of(addresses: Seq<UrlView>) -> Seq<UrlView> {
    addresses.filter_map(|a: UrlView| twi_image(a))
}

/// The upstream addresses of the images that `description` embeds.
pub open spec fn twi_images(description: Seq<char>) -> Seq<UrlView> {
    twi_images_of(nitter_images(description))
}

/// The text that `decoded` stands for: `Some` where there are bytes and they are
/// valid UTF-8.
pub fn decoded_text(decoded: Option<Vec<u8>>) -> (r: Option<String>)
    ensures
        r.deep_view() == text_of_bytes(decoded.deep_view()),
{
    match decoded {
        Some(bytes) => {
            assert(bytes.deep_view() =~= bytes@);
            utf8_text(bytes)
        },
        None => None,
    }
}

/// Reads `id_base64` as standard base64 and the bytes as UTF-8.
pub fn decode_base64(id_base64: &str) -> (r: Option<String>)
    ensures
        r.deep_view() == text_of_bytes(base64_decode(id_base64@)),
{
    let decoded = decode_standard(id_base64);
    proof {
        if decoded is Some {
            assert(decoded->0.deep_view() =~= decoded->0@);
        }
    }
    decoded_text(decoded)
}

/// The upstream path of the image that a mirror shows at `url_src`; `None` where the
/// path of the address has no last segment, or the segment is neither a marked path
/// nor base64 of a text.
pub fn get_image_id(url_src: &Url) -> (r: Option<String>)
    ensures
        r.deep_view() == image_id(url_src@.path),
{
    match last_segment(url_src.path()) {
        Some(segment) => {
            if has_prefix(segment, MEDIA_MARKER) {
                Some(replace(segment, ENCODED_SLASH, SLASH))
            } else {
                decode_base64(segment)
            }
        },
        None => None,
    }
}

/// The addresses that the source attributes `sources` hold: each one that has a value
/// which is an address, in order.
pub fn parse_sources(sources: &Vec<Option<String>>) -> (r: Vec<Url>)
    ensures
        r.deep_view() == source_addresses(sources.deep_view()),
{
    let mut out: Vec<Url> = Vec::new();
    let mut i: usize = 0;
    assert(sources.deep_view().take(0) =~= Seq::empty());
    while i < sources.len()
        invariant
            i <= sources.len(),
            out.deep_view() == source_addresses(sources.deep_view().take(i as int)),
        decreases sources.len() - i,
    {
        let ghost seen = sources.deep_view().take(i as int);
        let ghost before = out.deep_view();
        proof {
            let next = sources.deep_view().take(i + 1);
            assert(next.drop_last() =~= seen);
            assert(next.last() == sources@[i as int].deep_view());
        }
        match &sources[i] {
            Some(s) => {
                match Url::parse(s.as_str()) {
                    Ok(u) => {
                        out.push(u);
                        assert(out.deep_view() =~= before + seq![u@]);
                    },
                    Err(_) => {},
                }
            },
            None => {},
        }
        i += 1;
    }
    assert(sources.deep_view().take(i as int) =~= sources.deep_view());
    out
}

/// The addresses on the mirror of the images that `description` embeds: the `src` of
/// each `img` element, where it is an address.
pub fn fetch_nitter_images(description: &str) -> (r: Vec<Url>)
    ensures
        r.deep_view() == nitter_images(description@),
{
    match select_attribute(description, IMAGE_SELECTOR, SOURCE_ATTRIBUTE) {
        Some(sources) => parse_sources(&sources),
        None => {
            let none: Vec<Url> = Vec::new();
            assert(none.deep_view() =~= Seq::empty());
            none
        },
    }
}

/// The address on the media host of the media with the upstream path `id`; `None`
/// where the path cannot be joined to the media host, or leads off it.
pub fn media_url(id: &str) -> (r: Option<Url>)
    ensures
        r.deep_view() == media_address(id@),
        r is Some ==> r->0@.domain == Some(MEDIA_DOMAIN@),
{
    match Url::resolve(MEDIA_HOST, id) {
        Ok(url) => {
            let on_host = match url.domain() {
                Some(d) => same_text(d, MEDIA_DOMAIN),
                None => false,
            };
            if on_host {
                Some(url)
            } else {
                None
            }
        },
        Err(_) => None,
    }
}

/// The upstream addresses of the images that a mirror shows at `nitter_imgs`: for each
/// address whose last segment holds a path, that path joined to the media host.
pub fn resolve_images(nitter_imgs: &Vec<Url>) -> (r: Vec<Url>)
    ensures
        r.deep_view() == twi_images_of(nitter_imgs.deep_view()),
{
    let mut out: Vec<Url> = Vec::new();
    let mut i: usize = 0;
    assert(nitter_imgs.deep_view().take(0) =~= Seq::empty());
    while i < nitter_imgs.len()
        invariant
            i <= nitter_imgs.len(),
            out.deep_view() == twi_images_of(nitter_imgs.deep_view().take(i as int)),
        decreases nitter_imgs.len() - i,
    {
        let ghost seen = nitter_imgs.deep_view().take(i as int);
        let ghost before = out.deep_view();
        proof {
            let next = nitter_imgs.deep_view().take(i + 1);
            assert(next.drop_last() =~= seen);
            assert(next.last() == nitter_imgs@[i as int]@);
        }
        match get_image_id(&nitter_imgs[i]) {
            Some(id) => {
                match media_url(id.as_str()) {
                    Some(u) => {
                        out.push(u);
                        assert(out.deep_view() =~= before + seq![u@]);
                    },
                    None => {},
                }
            },
            None => {},
        }
        i += 1;
    }
    assert(nitter_imgs.deep_view().take(i as int) =~= nitter_imgs.deep_view());
    out
}

/// The upstream addresses of the images that `description` embeds.
pub fn fetch_twi_images(description: &str) -> (r: Vec<Url>)
    ensures
        r.deep_view() == twi_images(description@),
{
    let nitter_imgs = fetch_nitter_images(description);
    resolve_images(&nitter_imgs)
}

/// Bytes that encode a text as UTF-8 stand for that text.
pub proof fn lemma_bytes_of_a_text_give_it_back(path: Seq<char>)
    ensures
        text_of_bytes(Some(encode_utf8(path))) == Some(path),
{
    encode_utf8_valid_utf8(path);
    encode_utf8_decode_utf8(path);
}

/// A token gives back the path that it was made of: where the last segment of an
/// image's address does not open with the marker and base64 decoding makes of it
/// the UTF-8 bytes of `path`, the upstream path of the image is `path`.
pub proof fn lemma_token_gives_its_path_back(shown: Seq<char>, path: Seq<char>)
    requires
        final_segment(shown) is Some,
        !starts_with(final_segment(shown)->0, MEDIA_MARKER@),
        base64_decode(final_segment(shown)->0) == Some(encode_utf8(path)),
    ensures
        image_id(shown) == Some(path),
{
    lemma_bytes_of_a_text_give_it_back(path);
}

/// Every upstream address of an image is on the media host.
pub proof fn lemma_media_are_on_the_media_host(address: UrlView)
    ensures
        twi_image(address) is Some ==> twi_image(address)->0.domain == Some(MEDIA_DOMAIN@),
{
}

} // verus!
