//! The human-readable pages: the usage text of the front page and the
//! browser upload form. Both are plain HTML built from the configured
//! externally-advertised base URL; nothing in them is stored.

use vstd::prelude::*;

verus! {

/// The front page's usage text for a given advertised base URL.
pub open spec fn spec_index_page(host: Seq<char>) -> Seq<char> {
    "<html><pre>
    USAGE

      POST /

          accepts raw data in the body of the request and responds with a URL of
          a page containing the body's content

          EXAMPLE: curl --data-binary @file.txt "@ + host
        + "

      GET /&lt;id&gt;

          retrieves the content for the paste with id `&lt;id&gt;`

    UPLOAD VIA BROWSER

      GET <a href='"@ + host + "/upload'>"@ + host + "/upload</a>

          provides a simple upload UI
    </pre></html>"@
}

/// The front page: usage text with the advertised base URL of the service
/// interpolated into the examples and the upload link.
pub fn index(host: &str) -> (r: String)
    ensures
        r@ == spec_index_page(host@),
{
    let mut s: String = "<html><pre>
    USAGE

      POST /

          accepts raw data in the body of the request and responds with a URL of
          a page containing the body's content

          EXAMPLE: curl --data-binary @file.txt ".to_owned();
    s.append(host);
    s.append(
        "

      GET /&lt;id&gt;

          retrieves the content for the paste with id `&lt;id&gt;`

    UPLOAD VIA BROWSER

      GET <a href='",
    );
    s.append(host);
    s.append("/upload'>");
    s.append(host);
    s.append(
        "/upload</a>

          provides a simple upload UI
    </pre></html>",
    );
    s
}

/// The browser upload page: a fixed form posting a multipart `file` field.
pub open spec fn spec_upload_page() -> Seq<char> {
    "
<!DOCTYPE html>
<html>
    <body>
        <form method='post' enctype='multipart/form-data'>
            <input type='file' name='file' id='file' />
            <button type='submit'>Upload</button>
        </form>
    </body>
</html>
    "@
}

/// The browser upload page.
pub fn upload_ui() -> (r: String)
    ensures
        r@ == spec_upload_page(),
{
    "
<!DOCTYPE html>
<html>
    <body>
        <form method='post' enctype='multipart/form-data'>
            <input type='file' name='file' id='file' />
            <button type='submit'>Upload</button>
        </form>
    </body>
</html>
    ".to_owned()
}

} // verus!
