//! File URIs for the media prober.

use crate::text::chars_of;
use vstd::prelude::*;

verus! {

/// How the platform writes its paths.
#[derive(Debug, Clone, Copy, PartialEq, Eq, Structural)]
pub enum PathStyle {
    /// Components parted by `/`, from the root `/`.
    Unix,
    /// Components parted by `\`, from a drive or a share.
    Windows,
}

/// `path` with each backslash turned into a slash.
pub open spec fn slashed(path: Seq<char>) -> Seq<char> {
    path.map_values(
        |c: char|
            if c == '\\' {
                '/'
            } else {
                c
            },
    )
}

/// The `file:` URI of an absolute path. A Unix path brings its own leading
/// slash; a Windows path gets one, and slashes for its backslashes.
pub open spec fn file_uri(path: Seq<char>, style: PathStyle) -> Seq<char> {
    match style {
        PathStyle::Unix => "file://"@ + path,
        PathStyle::Windows => "file:///"@ + slashed(path),
    }
}

/// The `file:` URI of `path`, which is absolute and canonical, written in
/// the given style.
pub fn path_to_file_uri(path: &str, style: PathStyle) -> (uri: String)
    ensures
        uri@ == file_uri(path@, style),
{
    match style {
        PathStyle::Unix => {
            let mut uri = String::from_str("file://");
            uri.append(path);
            uri
        },
        PathStyle::Windows => {
            proof {
                reveal_strlit("/");
            }
            let chars = chars_of(path);
            let mut uri = String::from_str("file:///");
            let mut start: usize = 0;
            let mut i: usize = 0;
            assert(uri@ =~= "file:///"@ + slashed(chars@.take(0)));
            while i < chars.len()
                invariant
                    chars@ == path@,
                    "/"@ == seq!['/'],
                    start <= i <= chars@.len(),
                    uri@ == "file:///"@ + slashed(chars@.take(start as int)),
                    forall|k: int| start <= k < i ==> chars@[k] != '\\',
                decreases chars@.len() - i,
            {
                if chars[i] == '\\' {
                    let ghost before = uri@;
                    uri.append(path.substring_char(start, i));
                    uri.append("/");
                    assert(uri@ =~= "file:///"@ + slashed(chars@.take(i + 1))) by {
                        assert(uri@ == before + chars@.subrange(start as int, i as int) + seq!['/']);
                        assert(slashed(chars@.take(i + 1)) =~= slashed(chars@.take(start as int))
                            + chars@.subrange(start as int, i as int) + seq!['/']);
                    }
                    start = i + 1;
                }
                i = i + 1;
            }
            let ghost before = uri@;
            uri.append(path.substring_char(start, i));
            assert(uri@ =~= "file:///"@ + slashed(chars@)) by {
                assert(uri@ == before + chars@.subrange(start as int, i as int));
                assert(slashed(chars@) =~= slashed(chars@.take(start as int)) + chars@.subrange(
                    start as int,
                    i as int,
                ));
            }
            uri
        },
    }
}

} // verus!
