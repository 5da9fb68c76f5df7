//! The content type under which a static file of the client is served.
use vstd::prelude::*;

verus! {

/// `text` ends with `suffix`.
pub open spec fn ends_with(text: Seq<char>, suffix: Seq<char>) -> bool {
    suffix.len() <= text.len() && text.subrange(text.len() - suffix.len(), text.len() as int)
        == suffix
}

/// The content type of a file, decided by the extension of its path.
pub open spec fn mime_type_for(path: Seq<char>) -> Seq<char> {
    if ends_with(path, ".html"@) {
        "text/html; charset=utf-8"@
    } else if ends_with(path, ".css"@) {
        "text/css; charset=utf-8"@
    } else if ends_with(path, ".js"@) {
        "text/javascript; charset=utf-8"@
    } else if ends_with(path, ".svg"@) {
        "image/svg+xml"@
    } else {
        "application/octet-stream"@
    }
}

fn has_suffix(text: &str, suffix: &str) -> (found: bool)
    ensures
        found == ends_with(text@, suffix@),
{
    let n = text.unicode_len();
    let k = suffix.unicode_len();
    if k > n {
        return false;
    }
    let start = n - k;
    let mut i: usize = 0;
    while i < k
        invariant
            n == text@.len(),
            k == suffix@.len(),
            start == n - k,
            i <= k,
            forall|j: int| 0 <= j < i ==> text@[start + j] == suffix@[j],
        decreases k - i,
    {
        if text.get_char(start + i) != suffix.get_char(i) {
            assert(text@.subrange(start as int, n as int)[i as int] != suffix@[i as int]);
            return false;
        }
        i = i + 1;
    }
    assert(text@.subrange(start as int, n as int) =~= suffix@);
    true
}

/// The content type to send with the file at `path`.
pub fn mime_type(path: &str) -> (mime: &'static str)
    ensures
        mime@ == mime_type_for(path@),
{
    if has_suffix(path, ".html") {
        "text/html; charset=utf-8"
    } else if has_suffix(path, ".css") {
        "text/css; charset=utf-8"
    } else if has_suffix(path, ".js") {
        "text/javascript; charset=utf-8"
    } else if has_suffix(path, ".svg") {
        "image/svg+xml"
    } else {
        "application/octet-stream"
    }
}


/// A file is served by its extension alone: whatever comes before it, a path
/// ending in `.html`, `.css`, `.js` or `.svg` gets that type, and a path with
/// no dot at all is served as plain bytes.
pub proof fn law_mime_type_by_extension(stem: Seq<char>)
    ensures
        mime_type_for(stem + ".html"@) == "text/html; charset=utf-8"@,
        mime_type_for(stem + ".css"@) == "text/css; charset=utf-8"@,
        mime_type_for(stem + ".js"@) == "text/javascript; charset=utf-8"@,
        mime_type_for(stem + ".svg"@) == "image/svg+xml"@,
        !stem.contains('.') ==> mime_type_for(stem) == "application/octet-stream"@,
{
    reveal_strlit(".html");
    reveal_strlit(".css");
    reveal_strlit(".js");
    reveal_strlit(".svg");
    let html = stem + ".html"@;
    assert(html.subrange(html.len() - 5, html.len() as int) =~= ".html"@);
    let css = stem + ".css"@;
    assert(css.subrange(css.len() - 4, css.len() as int) =~= ".css"@);
    assert(!ends_with(css, ".html"@)) by {
        if ends_with(css, ".html"@) {
            assert(css[css.len() - 1] == 's');
            assert(".html"@[4] == 'l');
            assert(css.subrange(css.len() - 5, css.len() as int)[4] == css[css.len() - 1]);
        }
    }
    let js = stem + ".js"@;
    assert(js.subrange(js.len() - 3, js.len() as int) =~= ".js"@);
    assert(!ends_with(js, ".html"@)) by {
        if ends_with(js, ".html"@) {
            assert(js.subrange(js.len() - 5, js.len() as int)[4] == js[js.len() - 1]);
        }
    }
    assert(!ends_with(js, ".css"@)) by {
        if ends_with(js, ".css"@) {
            assert(js.subrange(js.len() - 4, js.len() as int)[1] == js[js.len() - 3]);
            assert(js[js.len() - 3] == '.');
        }
    }
    let svg = stem + ".svg"@;
    assert(svg.subrange(svg.len() - 4, svg.len() as int) =~= ".svg"@);
    assert(!ends_with(svg, ".html"@)) by {
        if ends_with(svg, ".html"@) {
            assert(svg.subrange(svg.len() - 5, svg.len() as int)[4] == svg[svg.len() - 1]);
        }
    }
    assert(!ends_with(svg, ".css"@)) by {
        if ends_with(svg, ".css"@) {
            assert(svg.subrange(svg.len() - 4, svg.len() as int)[3] == svg[svg.len() - 1]);
        }
    }
    assert(!ends_with(svg, ".js"@)) by {
        if ends_with(svg, ".js"@) {
            assert(svg.subrange(svg.len() - 3, svg.len() as int)[2] == svg[svg.len() - 1]);
        }
    }
    if !stem.contains('.') {
        assert forall|suffix: Seq<char>|
            suffix.len() > 0 && suffix[0] == '.' implies !ends_with(stem, suffix) by {
            if ends_with(stem, suffix) {
                let k = stem.len() - suffix.len();
                assert(stem.subrange(k, stem.len() as int)[0] == stem[k]);
            }
        }
        assert(".html"@[0] == '.');
        assert(".css"@[0] == '.');
        assert(".js"@[0] == '.');
        assert(".svg"@[0] == '.');
    }
}

} // verus!
