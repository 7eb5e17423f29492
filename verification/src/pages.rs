//! The HTML pages that the service answers with.

use vstd::prelude::*;

verus! {

/// The page with the upload form.
pub const ROOT_PAGE: &'static str = r#"<!DOCTYPE html>
<html>
<head>
<meta charset="UTF-8">
<title>Sticknodes Renderer</title>
<style>
body {
    font-family: system-ui, sans-serif;
    background: #111;
    color: #eee;
    display: flex;
    justify-content: center;
    padding: 40px;
}
.container {
    max-width: 700px;
    width: 100%;
}
h1 {
    margin-bottom: 10px;
}
.card {
    background: #1e1e1e;
    padding: 20px;
    border-radius: 8px;
}
input[type="file"] {
    margin-top: 10px;
    margin-bottom: 15px;
    color: #ccc;
}
button {
    background: #4f46e5;
    border: none;
    padding: 8px 14px;
    color: white;
    border-radius: 4px;
    cursor: pointer;
    font-size: 14px;
}
button:hover {
    background: #6366f1;
}
.upload-area {
    border: 2px dashed #333;
    padding: 30px;
    text-align: center;
    border-radius: 8px;
    margin-bottom: 15px;
}
</style>
</head>
<body>
<div class="container">
<h1>Sticknodes Renderer</h1>

<div class="card">
<form method="POST" enctype="multipart/form-data">
<div class="upload-area">
<p>Select a <strong>.nodes</strong> file to render</p>
<input type="file" name="file" accept=".nodes" required />
</div>
<button type="submit">Render</button>
</form>
</div>

</div>
</body>
</html>"#;

/// The completion page up to the address of the picture.
pub const COMPLETE_HEAD: &'static str = r#"<!DOCTYPE html>
<html>
<head>
<meta charset="UTF-8">
<title>Render Complete</title>
<style>
body {
    font-family: system-ui, sans-serif;
    background: #111;
    color: #eee;
    display: flex;
    justify-content: center;
    padding: 40px;
}
.container {
    max-width: 700px;
    width: 100%;
}
h1 {
    margin-bottom: 10px;
}
img {
    max-width: 100%;
    background: #222;
    padding: 10px;
    border-radius: 8px;
}
.link-box {
    background: #1e1e1e;
    padding: 10px;
    margin-top: 15px;
    border-radius: 6px;
    display: flex;
    justify-content: space-between;
    align-items: center;
    font-size: 14px;
}
button {
    background: #4f46e5;
    border: none;
    padding: 6px 10px;
    color: white;
    border-radius: 4px;
    cursor: pointer;
}
button:hover {
    background: #6366f1;
}
a {
    color: #93c5fd;
    text-decoration: none;
}
</style>
<script>
function copyToClipboard(text) {
    navigator.clipboard.writeText(text);
}
</script>
</head>
<body>
<div class="container">
<h1>Render Complete ✅</h1>

<img src=""#;

/// From the picture to the address of the picture in its link box.
pub const COMPLETE_PNG_BOX: &'static str = r#"" />

<div class="link-box">
<span>"#;

/// From a shown address to the same address in the script of its copy button.
pub const COPY_BUTTON: &'static str = r#"</span>
<button onclick="copyToClipboard(window.location.origin + '"#;

/// From the button that copies the address of the picture to the shown share address.
pub const COMPLETE_SHARE_BOX: &'static str = r#"')">Copy PNG</button>
</div>

<div class="link-box">
<span>"#;

/// From the script of the button that copies the share address to the end of the page.
pub const COMPLETE_TAIL: &'static str = r#"')">Copy Share Link</button>
</div>

<br>
<a href="/">Upload another</a>

</div>
</body>
</html>"#;

/// The share page up to the address of the picture in its metadata.
pub const SHARE_HEAD: &'static str = r#"<!DOCTYPE html>
<html>
<head>
<meta property="og:title" content="Rendered Stickfigure" />
<meta property="og:image" content=""#;

/// From the metadata to the address of the picture in the body.
pub const SHARE_BODY: &'static str = r#"" />
<meta property="og:type" content="website" />
<meta property="og:image:type" content="image/png" />
</head>
<body>
<img src=""#;

/// From the picture to the end of the page.
pub const SHARE_TAIL: &'static str = r#"" />
</body>
</html>"#;

/// The page that answers an upload: it shows the picture at `png_url` and, each
/// with a button that copies it, the addresses `png_url` and `og_url`.
pub open spec fn completion_text(png_url: Seq<char>, og_url: Seq<char>) -> Seq<char> {
    COMPLETE_HEAD@ + png_url + COMPLETE_PNG_BOX@ + png_url + COPY_BUTTON@ + png_url
        + COMPLETE_SHARE_BOX@ + og_url + COPY_BUTTON@ + og_url + COMPLETE_TAIL@
}

/// The page that a share link leads to: it names the picture at `png_url` as
/// its Open Graph image, and shows it.
pub open spec fn share_text(png_url: Seq<char>) -> Seq<char> {
    SHARE_HEAD@ + png_url + SHARE_BODY@ + png_url + SHARE_TAIL@
}

/// The page with the upload form.
pub fn root_page() -> (page: &'static str)
    ensures
        page@ == ROOT_PAGE@,
{
    ROOT_PAGE
}

/// The page that answers an upload.
pub fn completion_page(png_url: &str, og_url: &str) -> (page: String)
    ensures
        page@ == completion_text(png_url@, og_url@),
        page@ == COMPLETE_HEAD@ + png_url@ + COMPLETE_PNG_BOX@ + png_url@ + COPY_BUTTON@ + png_url@
            + COMPLETE_SHARE_BOX@ + og_url@ + COPY_BUTTON@ + og_url@ + COMPLETE_TAIL@,
{
    let mut page = COMPLETE_HEAD.to_owned();
    page.append(png_url);
    page.append(COMPLETE_PNG_BOX);
    page.append(png_url);
    page.append(COPY_BUTTON);
    page.append(png_url);
    page.append(COMPLETE_SHARE_BOX);
    page.append(og_url);
    page.append(COPY_BUTTON);
    page.append(og_url);
    page.append(COMPLETE_TAIL);
    page
}

/// The page that a share link leads to.
pub fn share_page(png_url: &str) -> (page: String)
    ensures
        page@ == share_text(png_url@),
        page@ == SHARE_HEAD@ + png_url@ + SHARE_BODY@ + png_url@ + SHARE_TAIL@,
{
    let mut page = SHARE_HEAD.to_owned();
    page.append(png_url);
    page.append(SHARE_BODY);
    page.append(png_url);
    page.append(SHARE_TAIL);
    page
}

/// Whether `text` stands somewhere in `page`.
pub open spec fn stands_in(text: Seq<char>, page: Seq<char>) -> bool {
    exists|before: Seq<char>, after: Seq<char>| #[trigger] (before + text + after) == page
}

/// The page that answers an upload gives both addresses, and the share page
/// gives that of the picture.
pub proof fn law_pages_give_the_addresses(png_url: Seq<char>, og_url: Seq<char>)
    ensures
        stands_in(png_url, completion_text(png_url, og_url)),
        stands_in(og_url, completion_text(png_url, og_url)),
        stands_in(png_url, share_text(png_url)),
{
    let completion = completion_text(png_url, og_url);
    let after_png = COMPLETE_PNG_BOX@ + png_url + COPY_BUTTON@ + png_url + COMPLETE_SHARE_BOX@
        + og_url + COPY_BUTTON@ + og_url + COMPLETE_TAIL@;
    assert(COMPLETE_HEAD@ + png_url + after_png =~= completion);
    let before_og = COMPLETE_HEAD@ + png_url + COMPLETE_PNG_BOX@ + png_url + COPY_BUTTON@ + png_url
        + COMPLETE_SHARE_BOX@ + og_url + COPY_BUTTON@;
    assert(before_og + og_url + COMPLETE_TAIL@ =~= completion);
    assert(SHARE_HEAD@ + png_url + (SHARE_BODY@ + png_url + SHARE_TAIL@) =~= share_text(png_url));
}

/// The addresses stand whole in their places on the page that answers an upload,
/// and nothing but the fixed text stands around them: the address of the picture
/// as the source of the image, in its link box and in the script of its button,
/// and the share address in its link box and in the script of its button.
pub proof fn law_completion_page_places(png_url: Seq<char>, og_url: Seq<char>)
    ensures
        ({
            let page = completion_text(png_url, og_url);
            let image = COMPLETE_HEAD@.len() as int;
            let png_shown = image + png_url.len() + COMPLETE_PNG_BOX@.len();
            let png_copied = png_shown + png_url.len() + COPY_BUTTON@.len();
            let og_shown = png_copied + png_url.len() + COMPLETE_SHARE_BOX@.len();
            let og_copied = og_shown + og_url.len() + COPY_BUTTON@.len();
            let tail = og_copied + og_url.len();
            &&& page.len() == tail + COMPLETE_TAIL@.len()
            &&& page.subrange(0, image) == COMPLETE_HEAD@
            &&& page.subrange(image, image + png_url.len()) == png_url
            &&& page.subrange(image + png_url.len(), png_shown) == COMPLETE_PNG_BOX@
            &&& page.subrange(png_shown, png_shown + png_url.len()) == png_url
            &&& page.subrange(png_shown + png_url.len(), png_copied) == COPY_BUTTON@
            &&& page.subrange(png_copied, png_copied + png_url.len()) == png_url
            &&& page.subrange(png_copied + png_url.len(), og_shown) == COMPLETE_SHARE_BOX@
            &&& page.subrange(og_shown, og_shown + og_url.len()) == og_url
            &&& page.subrange(og_shown + og_url.len(), og_copied) == COPY_BUTTON@
            &&& page.subrange(og_copied, tail) == og_url
            &&& page.subrange(tail, page.len() as int) == COMPLETE_TAIL@
        }),
{
    let page = completion_text(png_url, og_url);
    let image = COMPLETE_HEAD@.len() as int;
    let png_shown = image + png_url.len() + COMPLETE_PNG_BOX@.len();
    let png_copied = png_shown + png_url.len() + COPY_BUTTON@.len();
    let og_shown = png_copied + png_url.len() + COMPLETE_SHARE_BOX@.len();
    let og_copied = og_shown + og_url.len() + COPY_BUTTON@.len();
    let tail = og_copied + og_url.len();
    assert(page.subrange(0, image) =~= COMPLETE_HEAD@);
    assert(page.subrange(image, image + png_url.len()) =~= png_url);
    assert(page.subrange(image + png_url.len(), png_shown) =~= COMPLETE_PNG_BOX@);
    assert(page.subrange(png_shown, png_shown + png_url.len()) =~= png_url);
    assert(page.subrange(png_shown + png_url.len(), png_copied) =~= COPY_BUTTON@);
    assert(page.subrange(png_copied, png_copied + png_url.len()) =~= png_url);
    assert(page.subrange(png_copied + png_url.len(), og_shown) =~= COMPLETE_SHARE_BOX@);
    assert(page.subrange(og_shown, og_shown + og_url.len()) =~= og_url);
    assert(page.subrange(og_shown + og_url.len(), og_copied) =~= COPY_BUTTON@);
    assert(page.subrange(og_copied, tail) =~= og_url);
    assert(page.subrange(tail, page.len() as int) =~= COMPLETE_TAIL@);
}

/// The address of the picture stands whole in its places on the share page, and
/// nothing but the fixed text stands around it: in the metadata, and as the
/// source of the image.
pub proof fn law_share_page_places(png_url: Seq<char>)
    ensures
        ({
            let page = share_text(png_url);
            let metadata = SHARE_HEAD@.len() as int;
            let image = metadata + png_url.len() + SHARE_BODY@.len();
            let tail = image + png_url.len();
            &&& page.len() == tail + SHARE_TAIL@.len()
            &&& page.subrange(0, metadata) == SHARE_HEAD@
            &&& page.subrange(metadata, metadata + png_url.len()) == png_url
            &&& page.subrange(metadata + png_url.len(), image) == SHARE_BODY@
            &&& page.subrange(image, tail) == png_url
            &&& page.subrange(tail, page.len() as int) == SHARE_TAIL@
        }),
{
    let page = share_text(png_url);
    let metadata = SHARE_HEAD@.len() as int;
    let image = metadata + png_url.len() + SHARE_BODY@.len();
    let tail = image + png_url.len();
    assert(page.subrange(0, metadata) =~= SHARE_HEAD@);
    assert(page.subrange(metadata, metadata + png_url.len()) =~= png_url);
    assert(page.subrange(metadata + png_url.len(), image) =~= SHARE_BODY@);
    assert(page.subrange(image, tail) =~= png_url);
    assert(page.subrange(tail, page.len() as int) =~= SHARE_TAIL@);
}

} // verus!
