//! The request URL, the client constructors, and transport-failure
//! classification against a real (refusing) socket.

use lyric_finder::LyricClient;

#[test]
fn url_embeds_the_query_path_encoded_as_final_path_segment() {
    assert_eq!(
        lyric_finder::lyric_url("shape of you"),
        "https://api.lyricstify.vercel.app/v1/lyrics/shape%20of%20you"
    );
}

#[test]
fn url_of_empty_query_is_the_bare_endpoint() {
    assert_eq!(lyric_finder::lyric_url(""), "https://api.lyricstify.vercel.app/v1/lyrics/");
}

#[test]
fn unreserved_characters_pass_through_unencoded() {
    assert_eq!(lyric_finder::path_segment("AZaz09-._~"), "AZaz09-._~");
}

#[test]
fn separators_are_encoded_into_the_segment() {
    // Encoded `/`, `?` and `#` cannot end the path segment early.
    assert_eq!(lyric_finder::path_segment("a/b?c#d"), "a%2Fb%3Fc%23d");
}

#[test]
fn non_ascii_queries_are_encoded_by_utf8_byte() {
    assert_eq!(lyric_finder::path_segment("caf\u{e9}"), "caf%C3%A9");
}

#[test]
fn fresh_client_holds_a_transport() {
    let client = LyricClient::new();
    // The handle must be usable to build a request.
    let _builder = client.http().get("http://127.0.0.1:1/");
}

#[test]
fn refused_connection_is_a_transport_error() {
    let rt = tokio::runtime::Builder::new_current_thread()
        .enable_all()
        .build()
        .expect("a current-thread runtime");
    let http = reqwest::Client::new();
    let client = LyricClient::from_http_client(&http);
    // Port 1 on the loopback interface refuses the connection outright.
    let sent = rt.block_on(client.http().get("http://127.0.0.1:1/v1/lyrics/x").send());
    let err = sent.expect_err("the connection must be refused");
    let failure = lyric_finder::transport_failure(&err);
    assert!(failure.is_transport());
    assert!(!failure.is_decode());
    assert!(failure.message().starts_with("transport error: "));
}
