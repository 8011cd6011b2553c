use qqr::qr::encode;
use qqr::router::{get_format_from_accept, handle, parse_post, Method, Reply, Server, MAX_BODY_BYTES};
use qqr::OutputFormat;

const FORM: &[u8] = b"application/x-www-form-urlencoded";
const PLAIN: &[u8] = b"text/plain";

fn no_accept() -> Vec<Vec<u8>> {
    Vec::new()
}

#[test]
fn get_root_serves_a_form_page() {
    let r = handle(Method::Get, &b"/".to_vec(), &no_accept(), &None, &Vec::new());
    match r {
        Reply::Page(html) => {
            assert_eq!(html, Server::index());
            assert!(html.contains("<form"));
            assert!(html.contains("method=\"post\""));
        }
        _ => panic!("expected the index page"),
    }
}

#[test]
fn get_path_tail_returns_png_by_default() {
    let r = handle(Method::Get, &b"/hello".to_vec(), &no_accept(), &None, &Vec::new());
    match r {
        Reply::Image(img) => {
            assert_eq!(img.content_type(), "image/png");
            let expected = encode("hello", OutputFormat::PNG).unwrap();
            assert_eq!(img.bytes, expected.bytes);
        }
        _ => panic!("expected an image"),
    }
}

#[test]
fn svg_accept_header_selects_svg() {
    let accept = vec![b"image/svg+xml".to_vec()];
    let r = handle(Method::Get, &b"/hello".to_vec(), &accept, &None, &Vec::new());
    match r {
        Reply::Image(img) => {
            assert_eq!(img.content_type(), "image/svg+xml");
            let expected = encode("hello", OutputFormat::SVG).unwrap();
            assert_eq!(img.bytes, expected.bytes);
        }
        _ => panic!("expected an image"),
    }
}

#[test]
fn format_negotiation_is_an_exact_membership_test() {
    assert_eq!(get_format_from_accept(&no_accept()), OutputFormat::PNG);
    assert_eq!(
        get_format_from_accept(&vec![b"text/html".to_vec(), b"image/svg+xml".to_vec()]),
        OutputFormat::SVG
    );
    assert_eq!(
        get_format_from_accept(&vec![b"image/svg".to_vec()]),
        OutputFormat::PNG
    );
    // only the exact value selects SVG; a quality-annotated one does not
    assert_eq!(
        get_format_from_accept(&vec![b"image/svg+xml;q=0.9".to_vec()]),
        OutputFormat::PNG
    );
}

#[test]
fn post_form_encodes_the_decoded_field() {
    let r = handle(
        Method::Post,
        &b"/".to_vec(),
        &no_accept(),
        &Some(FORM.to_vec()),
        &b"input=hello%20world".to_vec(),
    );
    match r {
        Reply::Image(img) => {
            assert_eq!(img.content_type(), "image/png");
            let expected = encode("hello world", OutputFormat::PNG).unwrap();
            assert_eq!(img.bytes, expected.bytes);
        }
        _ => panic!("expected an image"),
    }
}

#[test]
fn post_plain_text_encodes_the_raw_body() {
    let r = handle(
        Method::Post,
        &b"/".to_vec(),
        &no_accept(),
        &Some(PLAIN.to_vec()),
        &b"plain payload".to_vec(),
    );
    match r {
        Reply::Image(img) => {
            let expected = encode("plain payload", OutputFormat::PNG).unwrap();
            assert_eq!(img.bytes, expected.bytes);
        }
        _ => panic!("expected an image"),
    }
}

#[test]
fn oversized_body_is_413_regardless_of_content_type() {
    let body = vec![b'a'; MAX_BODY_BYTES + 1];
    for ct in [Some(FORM.to_vec()), Some(PLAIN.to_vec()), Some(b"application/json".to_vec()), None] {
        let r = handle(Method::Post, &b"/".to_vec(), &no_accept(), &ct, &body);
        assert!(matches!(r, Reply::Failure(413)));
    }
}

#[test]
fn body_at_the_ceiling_is_accepted() {
    let body = vec![b'a'; MAX_BODY_BYTES];
    let r = parse_post(&Some(PLAIN.to_vec()), &body);
    assert!(r.is_ok());
}

#[test]
fn json_content_type_is_415() {
    let r = handle(
        Method::Post,
        &b"/".to_vec(),
        &no_accept(),
        &Some(b"application/json".to_vec()),
        &b"{}".to_vec(),
    );
    assert!(matches!(r, Reply::Failure(415)));
}

#[test]
fn missing_content_type_is_400() {
    let r = handle(Method::Post, &b"/".to_vec(), &no_accept(), &None, &b"x".to_vec());
    assert!(matches!(r, Reply::Failure(400)));
}

#[test]
fn form_without_input_field_is_400() {
    let r = handle(
        Method::Post,
        &b"/".to_vec(),
        &no_accept(),
        &Some(FORM.to_vec()),
        &b"other=1&more=2".to_vec(),
    );
    assert!(matches!(r, Reply::Failure(400)));
}

#[test]
fn put_delete_patch_are_405_on_any_path() {
    for method in [Method::Put, Method::Delete, Method::Patch] {
        for path in [&b"/"[..], &b"/hello"[..]] {
            let r = handle(method, &path.to_vec(), &no_accept(), &None, &Vec::new());
            assert!(matches!(r, Reply::Failure(405)));
        }
    }
}

#[test]
fn post_off_root_is_405() {
    let r = handle(
        Method::Post,
        &b"/elsewhere".to_vec(),
        &no_accept(),
        &Some(PLAIN.to_vec()),
        &b"x".to_vec(),
    );
    assert!(matches!(r, Reply::Failure(405)));
}

#[test]
fn content_type_match_ignores_case_and_parameters() {
    let r = parse_post(
        &Some(b"Text/Plain; charset=utf-8".to_vec()),
        &b"spaced out".to_vec(),
    );
    assert_eq!(r.unwrap(), "spaced out");
}

#[test]
fn form_field_is_percent_decoded_once() {
    let body = b"first=1&input=caf%C3%A9+au+lait&last=2".to_vec();
    let r = parse_post(&Some(FORM.to_vec()), &body);
    assert_eq!(r.unwrap(), "caf\u{e9} au lait");
}

#[test]
fn invalid_utf8_is_replaced_not_rejected() {
    let r = parse_post(&Some(PLAIN.to_vec()), &vec![b'o', b'k', 0xff]);
    assert_eq!(r.unwrap(), "ok\u{fffd}");
}

#[test]
fn stray_escapes_pass_through() {
    let r = parse_post(&Some(FORM.to_vec()), &b"input=100%25+and+%zz".to_vec());
    assert_eq!(r.unwrap(), "100% and %zz");
}

#[test]
fn first_of_duplicate_input_fields_wins() {
    let r = parse_post(&Some(FORM.to_vec()), &b"input=first&input=second".to_vec());
    assert_eq!(r.unwrap(), "first");
}

#[test]
fn unknown_methods_are_405() {
    let r = handle(Method::Other, &b"/hello".to_vec(), &no_accept(), &None, &Vec::new());
    assert!(matches!(r, Reply::Failure(405)));
}
