use notion_core::distro::download_tool_error;
use notion_core::error::{ErrorDetails, TransportError};
use notion_core::tool::ToolSpec;

fn node(version: &str) -> ToolSpec {
    ToolSpec { kind: "node".to_string(), version: version.to_string() }
}

fn http(code: u16, message: &str) -> TransportError {
    TransportError::Http { code, message: message.to_string() }
}

fn other(message: &str) -> TransportError {
    TransportError::Other { message: message.to_string() }
}

const URL: &str = "https://nodejs.org/dist/v999.0.0/node-v999.0.0-linux-x64.tar.gz";

#[test]
fn not_found_keeps_the_tool() {
    let classify = download_tool_error(node("999.0.0"), URL);
    assert_eq!(
        classify(&http(404, "HTTP failure (404 Not Found)")),
        ErrorDetails::DownloadToolNotFound { tool: node("999.0.0") }
    );
}

#[test]
fn not_found_does_not_depend_on_the_words() {
    let classify = download_tool_error(node("^999"), URL);
    assert_eq!(
        classify(&http(404, "")),
        ErrorDetails::DownloadToolNotFound { tool: node("^999") }
    );
}

#[test]
fn a_server_error_is_a_network_error() {
    let classify = download_tool_error(node("16.2.0"), URL);
    assert_eq!(
        classify(&http(500, "HTTP failure (500 Internal Server Error)")),
        ErrorDetails::DownloadToolNetworkError {
            tool: node("16.2.0"),
            error: "HTTP failure (500 Internal Server Error)".to_string(),
            from_url: URL.to_string(),
        }
    );
}

#[test]
fn the_neighbours_of_not_found_are_network_errors() {
    for code in [403u16, 405] {
        let classify = download_tool_error(node("16.2.0"), URL);
        assert_eq!(
            classify(&http(code, "refused")),
            ErrorDetails::DownloadToolNetworkError {
                tool: node("16.2.0"),
                error: "refused".to_string(),
                from_url: URL.to_string(),
            }
        );
    }
}

#[test]
fn every_other_status_is_a_network_error() {
    for code in [0u16, 100, 200, 301, 400, 410, 503, 999, u16::MAX] {
        let classify = download_tool_error(node("16.2.0"), URL);
        let details = classify(&http(code, "status"));
        assert!(matches!(details, ErrorDetails::DownloadToolNetworkError { .. }));
    }
}

#[test]
fn a_connection_reset_is_a_network_error() {
    let classify = download_tool_error(node("16.2.0"), "https://mirror.example/node.tar.gz");
    assert_eq!(
        classify(&other("connection reset by peer")),
        ErrorDetails::DownloadToolNetworkError {
            tool: node("16.2.0"),
            error: "connection reset by peer".to_string(),
            from_url: "https://mirror.example/node.tar.gz".to_string(),
        }
    );
}

#[test]
fn words_that_speak_of_not_found_do_not_make_it_so() {
    let classify = download_tool_error(node("16.2.0"), URL);
    assert!(matches!(
        classify(&other("404 Not Found")),
        ErrorDetails::DownloadToolNetworkError { .. }
    ));
}

#[test]
fn the_words_and_the_address_are_kept_verbatim() {
    let words = "  t\u{e9}l\u{e9}chargement interrompu\n(os error 104)  ";
    let address = "HTTPS://Example.ORG/a%20b?x=1#frag";
    let classify = download_tool_error(node("lts"), address);
    match classify(&other(words)) {
        ErrorDetails::DownloadToolNetworkError { tool, error, from_url } => {
            assert_eq!(tool, node("lts"));
            assert_eq!(error, words);
            assert_eq!(from_url, address);
        }
        other => panic!("not a network error: {:?}", other),
    }
}

#[test]
fn empty_words_and_an_empty_address_are_kept() {
    let classify = download_tool_error(ToolSpec { kind: String::new(), version: String::new() }, "");
    assert_eq!(
        classify(&other("")),
        ErrorDetails::DownloadToolNetworkError {
            tool: ToolSpec { kind: String::new(), version: String::new() },
            error: String::new(),
            from_url: String::new(),
        }
    );
}

#[test]
fn the_tool_is_kept_for_every_kind() {
    let yarn = ToolSpec { kind: "yarn".to_string(), version: "1.22.x".to_string() };
    let classify = download_tool_error(yarn.clone(), "https://yarnpkg.com/downloads/");
    assert_eq!(classify(&http(404, "gone")), ErrorDetails::DownloadToolNotFound { tool: yarn });
}

#[test]
fn a_cloned_tool_is_the_same_tool() {
    let tool = node(">=14 <17");
    let copy = tool.clone();
    assert_eq!(copy, tool);
    assert_eq!(copy.kind, "node");
    assert_eq!(copy.version, ">=14 <17");
}
