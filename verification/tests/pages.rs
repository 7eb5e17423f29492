use render_service::config::data_dir;
use render_service::links::{
    nodes_file, og_url, png_file, png_url, Directory, UploadResponse, OG_ROUTE, PNG_ROUTE,
};
use render_service::pages::{completion_page, root_page, share_page};
use render_service::serve::{get_png, og_page};
use render_service::status::Status;

#[test]
fn files_are_named_by_identifier() {
    let nodes = nodes_file("abc");
    assert_eq!((nodes.directory, nodes.name.as_str()), (Directory::Nodes, "abc.nodes"));
    let png = png_file("abc");
    assert_eq!((png.directory, png.name.as_str()), (Directory::Png, "abc.png"));
    assert_eq!(Directory::Nodes.name(), "nodes");
    assert_eq!(Directory::Png.name(), "png");
}

#[test]
fn addresses_are_named_by_identifier() {
    assert_eq!(png_url("abc"), "/p/abc/png");
    assert_eq!(og_url("abc"), "/p/abc");
    assert_ne!(png_url("abc"), png_url("abd"));
    let response = UploadResponse::new("abc");
    assert_eq!(response.id, "abc");
    assert_eq!(response.png_url, "/p/abc/png");
    assert_eq!(response.og_url, "/p/abc");
}

#[test]
fn addresses_fill_their_routes() {
    assert_eq!(PNG_ROUTE.replace(":id", "abc"), png_url("abc"));
    assert_eq!(OG_ROUTE.replace(":id", "abc"), og_url("abc"));
}

#[test]
fn root_page_has_the_upload_form() {
    let page = root_page();
    assert!(page.starts_with("<!DOCTYPE html>\n<html>\n<head>\n<meta charset=\"UTF-8\">\n"));
    assert!(page.contains("<title>Sticknodes Renderer</title>"));
    assert!(page.contains("<form method=\"POST\" enctype=\"multipart/form-data\">"));
    assert!(page
        .contains("<input type=\"file\" name=\"file\" accept=\".nodes\" required />"));
    assert!(page.contains("body {\n    font-family: system-ui, sans-serif;"));
    assert!(page.ends_with("</div>\n</body>\n</html>"));
}

#[test]
fn completion_page_shows_and_links_the_picture() {
    let page = completion_page("/p/abc/png", "/p/abc");
    assert!(page.starts_with("<!DOCTYPE html>\n<html>\n"));
    assert!(page.contains("<title>Render Complete</title>"));
    assert!(page.contains("<h1>Render Complete ✅</h1>\n\n<img src=\"/p/abc/png\" />\n\n"));
    assert!(page.contains(
        "<div class=\"link-box\">\n<span>/p/abc/png</span>\n<button onclick=\"copyToClipboard(window.location.origin + '/p/abc/png')\">Copy PNG</button>\n</div>\n\n<div class=\"link-box\">\n<span>/p/abc</span>\n<button onclick=\"copyToClipboard(window.location.origin + '/p/abc')\">Copy Share Link</button>\n</div>\n\n<br>\n<a href=\"/\">Upload another</a>\n\n</div>\n</body>\n</html>"
    ));
    assert!(page.contains(
        "function copyToClipboard(text) {\n    navigator.clipboard.writeText(text);\n}\n</script>"
    ));
    assert!(!page.contains("{{") && !page.contains("}}"));
    assert_eq!(page.chars().count(), 1048 + 35 + 67 + 59 + 67 + 96 + 3 * 10 + 2 * 6);
}

#[test]
fn share_page_names_the_picture() {
    assert_eq!(
        share_page("/p/abc/png"),
        "<!DOCTYPE html>\n<html>\n<head>\n<meta property=\"og:title\" content=\"Rendered Stickfigure\" />\n<meta property=\"og:image\" content=\"/p/abc/png\" />\n<meta property=\"og:type\" content=\"website\" />\n<meta property=\"og:image:type\" content=\"image/png\" />\n</head>\n<body>\n<img src=\"/p/abc/png\" />\n</body>\n</html>"
    );
}

#[test]
fn a_stored_picture_is_served() {
    let response = get_png(Some(vec![1, 2, 3])).unwrap();
    assert_eq!(response.body, vec![1, 2, 3]);
    assert_eq!(response.content_type, "image/png");
    assert_eq!(response.cache_control, "public, max-age=31536000, immutable");
}

#[test]
fn a_missing_picture_is_not_found() {
    assert_eq!(get_png(None).unwrap_err(), Status::NotFound);
    assert_eq!(og_page("abc", false).unwrap_err(), Status::NotFound);
}

#[test]
fn the_share_page_of_a_stored_picture_is_served() {
    assert_eq!(og_page("abc", true).unwrap(), share_page("/p/abc/png"));
}

#[test]
fn statuses_have_their_codes() {
    assert_eq!(Status::BadRequest.code(), 400);
    assert_eq!(Status::NotFound.code(), 404);
    assert_eq!(Status::PayloadTooLarge.code(), 413);
    assert_eq!(Status::InternalServerError.code(), 500);
}

#[test]
fn data_dir_has_a_default() {
    assert_eq!(data_dir(None), "/var/lib/render-service");
    assert_eq!(data_dir(Some("/tmp/data".to_string())), "/tmp/data");
    assert_eq!(data_dir(Some(String::new())), "");
}
