//! How the files of the browser interface are served.

use vstd::prelude::*;

verus! {

/// A file of the interface as it is sent.
#[derive(Debug)]
pub struct AssetReply {
    pub status: u16,
    pub content_type: &'static str,
    pub cache_control: &'static str,
    pub body: String,
}

/// What an [`AssetReply`] stands for.
pub struct AssetModel {
    pub status: u16,
    pub content_type: Seq<char>,
    pub cache_control: Seq<char>,
    pub body: Seq<char>,
}

impl View for AssetReply {
    type V = AssetModel;

    open spec fn view(&self) -> AssetModel {
        AssetModel {
            status: self.status,
            content_type: self.content_type@,
            cache_control: self.cache_control@,
            body: self.body@,
        }
    }
}

/// A file of the given type. It comes with the daemon, so a browser asks for it anew.
pub open spec fn served(content_type: Seq<char>, body: Seq<char>) -> AssetModel {
    AssetModel { status: 200, content_type, cache_control: "no-cache"@, body }
}

/// A file of the given type.
fn asset(content_type: &'static str, body: &str) -> (r: AssetReply)
    ensures
        r@ == served(content_type@, body@),
{
    AssetReply { status: 200, content_type, cache_control: "no-cache", body: body.to_string() }
}

/// The page.
pub fn index(body: &str) -> (r: AssetReply)
    ensures
        r@ == served("text/html; charset=utf-8"@, body@),
{
    asset("text/html; charset=utf-8", body)
}

/// The script.
pub fn app_js(body: &str) -> (r: AssetReply)
    ensures
        r@ == served("application/javascript; charset=utf-8"@, body@),
{
    asset("application/javascript; charset=utf-8", body)
}

/// The style sheet.
pub fn style_css(body: &str) -> (r: AssetReply)
    ensures
        r@ == served("text/css; charset=utf-8"@, body@),
{
    asset("text/css; charset=utf-8", body)
}

/// The icon.
pub fn favicon(body: &str) -> (r: AssetReply)
    ensures
        r@ == served("image/svg+xml"@, body@),
{
    asset("image/svg+xml", body)
}

/// An image of the interface as it is sent.
#[derive(Debug)]
pub struct ImageReply {
    pub status: u16,
    pub content_type: &'static str,
    pub cache_control: &'static str,
    pub body: Vec<u8>,
}

/// What an [`ImageReply`] stands for.
pub struct ImageModel {
    pub status: u16,
    pub content_type: Seq<char>,
    pub cache_control: Seq<char>,
    pub body: Seq<u8>,
}

impl View for ImageReply {
    type V = ImageModel;

    open spec fn view(&self) -> ImageModel {
        ImageModel {
            status: self.status,
            content_type: self.content_type@,
            cache_control: self.cache_control@,
            body: self.body@,
        }
    }
}

/// A PNG image, served as the other files are.
pub open spec fn png_served(body: Seq<u8>) -> ImageModel {
    ImageModel {
        status: 200,
        content_type: "image/png"@,
        cache_control: "no-cache"@,
        body,
    }
}

/// A PNG image: an icon, a logo or a glyph.
pub fn png(body: Vec<u8>) -> (r: ImageReply)
    ensures
        r@ == png_served(body@),
{
    ImageReply { status: 200, content_type: "image/png", cache_control: "no-cache", body }
}

} // verus!
