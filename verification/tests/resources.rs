use render_host::state::resources::{
    format_url, load_binary, load_string, load_texture, Fault, Fetched, Loaded, ResourceError,
};
use render_host::state::texture::TextureError;

#[test]
fn url_is_origin_prefix_and_name() {
    assert_eq!(
        format_url("http://localhost:8080", "shader.wgsl"),
        "http://localhost:8080/webassembly/res/shader.wgsl"
    );
}

#[test]
fn url_keeps_an_origin_that_ends_with_the_prefix() {
    assert_eq!(
        format_url("https://example.org/webassembly/res", "cube.obj"),
        "https://example.org/webassembly/res/cube.obj"
    );
}

#[test]
fn url_adds_the_prefix_after_a_partial_match() {
    assert_eq!(
        format_url("https://example.org/webassembly/re", "a"),
        "https://example.org/webassembly/re/webassembly/res/a"
    );
    assert_eq!(
        format_url("https://example.org/webassembly/res/", "a"),
        "https://example.org/webassembly/res//webassembly/res/a"
    );
}

#[test]
fn url_of_an_origin_shorter_than_the_prefix() {
    assert_eq!(format_url("", "a.png"), "/webassembly/res/a.png");
    assert_eq!(format_url("/res", "a.png"), "/res/webassembly/res/a.png");
}

#[test]
fn url_of_an_origin_that_is_the_prefix() {
    assert_eq!(format_url("/webassembly/res", "a.png"), "/webassembly/res/a.png");
}

#[test]
fn url_of_the_empty_name_is_the_base_with_a_slash() {
    assert_eq!(format_url("http://h", ""), "http://h/webassembly/res/");
}

#[test]
fn url_takes_names_as_they_are() {
    assert_eq!(
        format_url("http://h", "models/caf\u{e9} \u{1f600}.png"),
        "http://h/webassembly/res/models/caf\u{e9} \u{1f600}.png"
    );
    assert_eq!(
        format_url("http://\u{fc}ber/webassembly/res", "x"),
        "http://\u{fc}ber/webassembly/res/x"
    );
}

#[test]
fn binary_load_hands_over_what_was_fetched() {
    let bytes = vec![0u8, 159, 146, 150, 255, 10];
    assert_eq!(load_binary(Fetched::Body(bytes.clone())), Loaded::Ready(bytes));
}

#[test]
fn binary_load_of_an_empty_resource_is_empty() {
    assert_eq!(load_binary(Fetched::Body(Vec::new())), Loaded::Ready(Vec::new()));
}

#[test]
fn binary_load_aborts_where_the_backend_could_not_deliver() {
    assert_eq!(load_binary(Fetched::Unavailable), Loaded::Abort(Fault::Unavailable));
}

#[test]
fn text_load_decodes_what_was_fetched() {
    let text = "fn main() { /* gr\u{fc}\u{df}e \u{4e16}\u{754c} \u{1f600} */ }\n";
    assert_eq!(
        load_string(Fetched::Body(text.as_bytes().to_vec())),
        Loaded::Ready(text.to_string())
    );
}

#[test]
fn text_load_and_binary_load_agree_byte_for_byte() {
    let stored = "struct VertexOutput { \u{3b1}: f32 };".as_bytes().to_vec();
    let data = match load_binary(Fetched::Body(stored.clone())) {
        Loaded::Ready(data) => data,
        Loaded::Abort(fault) => panic!("binary load aborted: {:?}", fault),
    };
    let text = match load_string(Fetched::Body(stored.clone())) {
        Loaded::Ready(text) => text,
        Loaded::Abort(fault) => panic!("text load aborted: {:?}", fault),
    };
    assert_eq!(data, stored);
    assert_eq!(text.as_bytes(), &stored[..]);
}

#[test]
fn text_load_of_an_empty_resource_is_empty() {
    assert_eq!(load_string(Fetched::Body(Vec::new())), Loaded::Ready(String::new()));
}

#[test]
fn text_load_aborts_on_invalid_utf8() {
    let truncated = vec![b'a', 0xe4, 0xb8];
    let stray_continuation = vec![0x80];
    let overlong = vec![0xc0, 0xaf];
    let surrogate = vec![0xed, 0xa0, 0x80];
    let too_large = vec![0xf4, 0x90, 0x80, 0x80];
    for bytes in vec![truncated, stray_continuation, overlong, surrogate, too_large] {
        assert_eq!(load_string(Fetched::Body(bytes)), Loaded::Abort(Fault::NotUtf8));
    }
}

#[test]
fn text_load_aborts_where_the_backend_could_not_deliver() {
    assert_eq!(load_string(Fetched::Unavailable), Loaded::Abort(Fault::Unavailable));
}

#[test]
fn texture_load_hands_bytes_and_name_to_the_decoder() {
    let mut seen: Vec<(Vec<u8>, String)> = Vec::new();
    let loaded = load_texture(Fetched::Body(vec![137, 80, 78, 71]), "tree.png", |bytes, label| {
        seen.push((bytes.clone(), label.to_string()));
        Ok::<usize, TextureError>(bytes.len())
    });
    assert_eq!(loaded, Loaded::Ready(Ok(4)));
    assert_eq!(seen, vec![(vec![137, 80, 78, 71], "tree.png".to_string())]);
}

#[test]
fn texture_load_returns_the_decoder_error() {
    let corrupt = load_texture(Fetched::Body(vec![1, 2, 3]), "a.png", |_bytes, _label| {
        Err::<u32, TextureError>(TextureError::Corrupt)
    });
    assert_eq!(corrupt, Loaded::Ready(Err(TextureError::Corrupt)));
    let unsupported = load_texture(Fetched::Body(Vec::new()), "a.tga", |_bytes, _label| {
        Err::<u32, TextureError>(TextureError::Unsupported)
    });
    assert_eq!(unsupported, Loaded::Ready(Err(TextureError::Unsupported)));
}

#[test]
fn texture_load_aborts_without_calling_the_decoder() {
    let mut called = false;
    let loaded = load_texture(Fetched::Unavailable, "missing.png", |_bytes, _label| {
        called = true;
        Ok::<u32, TextureError>(0)
    });
    assert_eq!(loaded, Loaded::Abort(Fault::Unavailable));
    assert!(!called);
}

#[test]
fn empty_name_is_loaded_like_any_other() {
    assert_eq!(load_binary(Fetched::Unavailable), Loaded::Abort(Fault::Unavailable));
    let loaded = load_texture(Fetched::Body(vec![9]), "", |bytes, label| {
        Ok::<(Vec<u8>, String), TextureError>((bytes, label.to_string()))
    });
    assert_eq!(loaded, Loaded::Ready(Ok((vec![9], String::new()))));
}

#[test]
fn texture_error_converts_into_resource_error() {
    assert_eq!(
        ResourceError::from(TextureError::Corrupt),
        ResourceError::TextureError(TextureError::Corrupt)
    );
    let wrapped: ResourceError = TextureError::Unsupported.into();
    assert_eq!(wrapped, ResourceError::TextureError(TextureError::Unsupported));
}
