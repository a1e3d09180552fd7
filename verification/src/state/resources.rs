//! Loading of named resources.
//!
//! A backend resolves a name and fetches what is there, from a directory or
//! over the network. The functions here take what the backend came back
//! with and decide what the load comes to: the resource, or an abort, since
//! a resource that cannot be had is a defect of the deployment and nothing
//! to recover from.

use vstd::prelude::*;
use vstd::string::StrSliceExecFns;
use vstd::string::StringExecFns;
use vstd::utf8::{
    decode_utf8, decode_utf8_encode_utf8, encode_utf8, encode_utf8_decode_utf8, valid_utf8,
};
use crate::state::texture::TextureError;

verus! {

/// An error in loading a resource that the caller can recover from.
#[derive(Clone, Copy, Debug, PartialEq, Eq, Structural)]
pub enum ResourceError {
    /// The resource was delivered, and the texture decoder turned it down.
    TextureError(TextureError),
}

impl From<TextureError> for ResourceError {
    fn from(error: TextureError) -> (wrapped: ResourceError) {
        ResourceError::TextureError(error)
    }
}

impl vstd::std_specs::convert::FromSpecImpl<TextureError> for ResourceError {
    open spec fn obeys_from_spec() -> bool {
        true
    }

    open spec fn from_spec(error: TextureError) -> ResourceError {
        ResourceError::TextureError(error)
    }
}

/// What a backend came back with for one request.
#[derive(Debug, PartialEq, Eq)]
pub enum Fetched {
    /// The whole content of the resource.
    Body(Vec<u8>),
    /// The resource could not be reached or read.
    Unavailable,
}

/// Why a load has to abort.
#[derive(Clone, Copy, Debug, PartialEq, Eq, Structural)]
pub enum Fault {
    /// The backend could not deliver the resource.
    Unavailable,
    /// The resource was asked for as text and is not valid UTF-8.
    NotUtf8,
}

/// What a load comes to.
#[derive(Debug, PartialEq, Eq)]
pub enum Loaded<T> {
    /// The resource, handed over to the caller.
    Ready(T),
    /// The process has to abort.
    Abort(Fault),
}

/// The path under which the resources are served, relative to the origin.
pub open spec fn resource_prefix() -> Seq<char> {
    "/webassembly/res"@
}

/// The address under which all resources are served: the origin followed by
/// the resource prefix, unless the origin ends with the prefix already.
pub open spec fn resource_base(origin: Seq<char>) -> Seq<char> {
    if resource_prefix().is_suffix_of(origin) {
        origin
    } else {
        origin + resource_prefix()
    }
}

/// The address of the resource `file_name` for an application served from
/// `origin`.
pub open spec fn resource_url(origin: Seq<char>, file_name: Seq<char>) -> Seq<char> {
    resource_base(origin) + "/"@ + file_name
}

/// Whether `text` ends with `suffix`.
fn ends_with(text: &str, suffix: &str) -> (found: bool)
    ensures
        found == suffix@.is_suffix_of(text@),
{
    let text_len: usize = text.unicode_len();
    let suffix_len: usize = suffix.unicode_len();
    if suffix_len > text_len {
        return false;
    }
    let tail = text.substring_char(text_len - suffix_len, text_len);
    tail.to_owned() == suffix.to_owned()
}

/// The address of the resource `file_name` for an application served from
/// `origin`.
pub fn format_url(origin: &str, file_name: &str) -> (url: String)
    ensures
        url@ == resource_url(origin@, file_name@),
{
    let mut url = String::from_str(origin);
    if !ends_with(origin, "/webassembly/res") {
        url.append("/webassembly/res");
    }
    url.append("/");
    url.append(file_name);
    url
}

/// `String::from_utf8`: the string made of `bytes`, or `None`. The contract
/// claims that the result is `Some` exactly when `bytes` are valid UTF-8,
/// and that the string then consists of these very bytes.
#[verifier::external_body]
fn text_from_utf8(bytes: Vec<u8>) -> (text: Option<String>)
    ensures
        text is Some <==> valid_utf8(bytes@),
        text matches Some(made) ==> encode_utf8(made@) == bytes@,
{
    match String::from_utf8(bytes) {
        Ok(text) => Some(text),
        Err(_) => None,
    }
}

/// What a binary load comes to: what the backend fetched, unchanged, or an
/// abort where it could not deliver.
pub open spec fn binary_load(fetched: Fetched) -> Loaded<Vec<u8>> {
    match fetched {
        Fetched::Body(bytes) => Loaded::Ready(bytes),
        Fetched::Unavailable => Loaded::Abort(Fault::Unavailable),
    }
}

/// What a text load comes to, the text given by its characters: the decoding
/// of what the backend fetched, or an abort where the backend could not
/// deliver or the content is not valid UTF-8.
pub open spec fn text_load(fetched: Fetched) -> Loaded<Seq<char>> {
    match fetched {
        Fetched::Body(bytes) => if valid_utf8(bytes@) {
            Loaded::Ready(decode_utf8(bytes@))
        } else {
            Loaded::Abort(Fault::NotUtf8)
        },
        Fetched::Unavailable => Loaded::Abort(Fault::Unavailable),
    }
}

/// Loads a resource as raw bytes: the very bytes that the backend fetched.
pub fn load_binary(fetched: Fetched) -> (loaded: Loaded<Vec<u8>>)
    ensures
        loaded == binary_load(fetched),
{
    match fetched {
        Fetched::Body(bytes) => Loaded::Ready(bytes),
        Fetched::Unavailable => Loaded::Abort(Fault::Unavailable),
    }
}

/// Loads a resource as text. The text handed over is encoded by the very
/// bytes that the backend fetched.
pub fn load_string(fetched: Fetched) -> (loaded: Loaded<String>)
    ensures
        match text_load(fetched) {
            Loaded::Ready(chars) => loaded matches Loaded::Ready(text) && text@ == chars,
            Loaded::Abort(fault) => loaded == Loaded::<String>::Abort(fault),
        },
        loaded matches Loaded::Ready(text) ==> (fetched matches Fetched::Body(bytes)
            && encode_utf8(text@) == bytes@),
{
    match load_binary(fetched) {
        Loaded::Ready(data) => match text_from_utf8(data) {
            Some(text) => {
                proof {
                    encode_utf8_decode_utf8(text@);
                }
                Loaded::Ready(text)
            },
            None => Loaded::Abort(Fault::NotUtf8),
        },
        Loaded::Abort(fault) => Loaded::Abort(fault),
    }
}

/// Loads a resource as a texture: hands what the backend fetched to
/// `decode`, together with the resource's name as the texture's label, and
/// returns the decoder's verdict as it is. The decoder is not called where
/// the backend could not deliver; the load aborts instead.
pub fn load_texture<T, D>(fetched: Fetched, file_name: &str, decode: D) -> (loaded: Loaded<
    Result<T, TextureError>,
>) where
    D: FnOnce(Vec<u8>, &str) -> Result<T, TextureError>,

    requires
        fetched matches Fetched::Body(bytes) ==> decode.requires((bytes, file_name)),
    ensures
        match fetched {
            Fetched::Body(bytes) => {
                &&& loaded matches Loaded::Ready(verdict)
                &&& decode.ensures((bytes, file_name), verdict)
            },
            Fetched::Unavailable => loaded == Loaded::<Result<T, TextureError>>::Abort(
                Fault::Unavailable,
            ),
        },
{
    match load_binary(fetched) {
        Loaded::Ready(data) => Loaded::Ready(decode(data, file_name)),
        Loaded::Abort(fault) => Loaded::Abort(fault),
    }
}

/// A resource that the backend delivered is loaded byte for byte: the
/// binary load hands over the very bytes, and the text load, where the bytes
/// are valid UTF-8, hands over the text whose UTF-8 encoding they are.
pub proof fn lemma_loads_are_faithful(bytes: Vec<u8>)
    ensures
        binary_load(Fetched::Body(bytes)) == Loaded::Ready(bytes),
        valid_utf8(bytes@) ==> (text_load(Fetched::Body(bytes)) matches Loaded::Ready(chars)
            && encode_utf8(chars) == bytes@),
        !valid_utf8(bytes@) ==> text_load(Fetched::Body(bytes)) == Loaded::<Seq<char>>::Abort(
            Fault::NotUtf8,
        ),
{
    if valid_utf8(bytes@) {
        decode_utf8_encode_utf8(bytes@);
    }
}

/// A resource that the backend could not deliver is never loaded: either
/// load comes to an abort, and to nothing else.
pub proof fn lemma_absent_resource_aborts()
    ensures
        binary_load(Fetched::Unavailable) == Loaded::<Vec<u8>>::Abort(Fault::Unavailable),
        text_load(Fetched::Unavailable) == Loaded::<Seq<char>>::Abort(Fault::Unavailable),
{
}

} // verus!
