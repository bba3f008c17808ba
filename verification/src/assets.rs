//! Static assets: which file a request names, which copy of it is served and
//! under which content type.

use vstd::prelude::*;
use vstd::string::*;

verus! {

/// The media type that the outside table of file extensions gives for
/// `extension`, or `application/octet-stream` where it knows none. The table
/// is not written out here.
pub uninterp spec fn mime_of_extension(extension: Seq<char>) -> Seq<char>;

/// Calls `mime_guess::from_ext(extension).first_or_octet_stream()` and hands
/// back the media type's text. Trusted: the result is the table's answer for
/// this extension, a function of the extension alone.
#[verifier::external_body]
fn guess_mime(extension: &str) -> (mime: String)
    ensures
        mime@ == mime_of_extension(extension@),
{
    let mime = mime_guess::from_ext(extension).first_or_octet_stream();
    let text: &str = mime.as_ref();
    text.to_string()
}

/// The asset that a request path stands for: the path itself, or
/// `index.html` for the empty path.
pub open spec fn asset_name_of(tail: Seq<char>) -> Seq<char> {
    if tail.len() == 0 {
        "index.html"@
    } else {
        tail
    }
}

/// A path without what does not count at its end: trailing `/` and trailing
/// `.` segments. So `a.css/`, `a.css/.` and `a.css/./` all end where `a.css`
/// ends.
pub open spec fn without_trailing_dots(path: Seq<char>) -> Seq<char>
    decreases path.len(),
{
    if path.len() >= 1 && path.last() == '/' {
        without_trailing_dots(path.drop_last())
    } else if path.len() >= 2 && path.last() == '.' && path[path.len() - 2] == '/' {
        without_trailing_dots(path.drop_last())
    } else {
        path
    }
}

/// What follows the last `/` of a path; the whole path where it has none.
pub open spec fn last_segment(path: Seq<char>) -> Seq<char> {
    match path.index_of_last('/') {
        Some(i) => path.subrange(i + 1, path.len() as int),
        None => path,
    }
}

/// The file name of a path, as the standard library reads a path whose
/// segments are separated by `/`: the last segment, where trailing `/` and
/// trailing `.` segments do not count. The empty path, the root, `.` and a
/// path that ends in `..` have none.
///
/// Only `/` separates. A `\` and a drive prefix such as `C:` are ordinary
/// characters of a name here, as they are in a request path; a system that
/// also splits at `\` reads such a name differently (to it `a.png\.` names
/// `a.png`, while here its file name is the whole text).
pub open spec fn file_name_of(path: Seq<char>) -> Option<Seq<char>> {
    let name = last_segment(without_trailing_dots(path));
    if name.len() == 0 || name == seq!['.'] || name == seq!['.', '.'] {
        None
    } else {
        Some(name)
    }
}

/// A trailing `/` and a trailing `/.` change neither the file name of a path
/// nor, with it, its extension and its content type.
pub proof fn lemma_trailing_segments_do_not_count(path: Seq<char>)
    ensures
        file_name_of(path.push('/')) == file_name_of(path),
        file_name_of(path.push('/').push('.')) == file_name_of(path),
        extension_of(path.push('/')) == extension_of(path),
        extension_of(path.push('/').push('.')) == extension_of(path),
        content_type_of(path.push('/')) == content_type_of(path),
        content_type_of(path.push('/').push('.')) == content_type_of(path),
{
    let slash = path.push('/');
    let dot = slash.push('.');
    assert(slash.drop_last() =~= path);
    assert(dot.drop_last() =~= slash);
    assert(without_trailing_dots(slash) == without_trailing_dots(path));
    assert(without_trailing_dots(dot) == without_trailing_dots(slash));
}

/// The extension within a file name: what follows the name's last `.`. A
/// name without a `.` and a name whose only `.` comes first have none.
pub open spec fn extension_within(name: Seq<char>) -> Option<Seq<char>> {
    match name.index_of_last('.') {
        Some(i) => if i == 0 {
            None
        } else {
            Some(name.subrange(i + 1, name.len() as int))
        },
        None => None,
    }
}

/// The extension of a path: the extension within its file name.
pub open spec fn extension_of(path: Seq<char>) -> Option<Seq<char>> {
    match file_name_of(path) {
        Some(name) => extension_within(name),
        None => None,
    }
}

/// The content type under which an asset is served.
pub open spec fn content_type_of(name: Seq<char>) -> Seq<char> {
    match extension_of(name) {
        Some(extension) => mime_of_extension(extension),
        None => "application/octet-stream"@,
    }
}

/// The asset that a request path stands for.
pub fn asset_name(tail: &str) -> (name: &str)
    ensures
        name@ == asset_name_of(tail@),
{
    if tail.is_empty() {
        "index.html"
    } else {
        tail
    }
}

/// The text behind an optional string slice.
pub open spec fn optional_slice(text: Option<&str>) -> Option<Seq<char>> {
    match text {
        Some(t) => Some(t@),
        None => None,
    }
}

fn chars_of(text: &str) -> (chars: Vec<char>)
    ensures
        chars@ == text@,
{
    let mut chars: Vec<char> = Vec::new();
    for c in it: text.chars()
        invariant
            it.seq() == text@,
            chars@ == text@.take(it.index() as int),
    {
        chars.push(c);
        assert(chars@ =~= text@.take(it.index() + 1));
    }
    assert(text@.take(text@.len() as int) =~= text@);
    chars
}

/// The file name of a path.
pub fn file_name(path: &str) -> (name: Option<&str>)
    ensures
        optional_slice(name) == file_name_of(path@),
{
    let chars = chars_of(path);
    let mut end: usize = chars.len();
    assert(path@.take(end as int) =~= path@);
    while end >= 1 && (chars[end - 1] == '/' || (end >= 2 && chars[end - 1] == '.' && chars[end
        - 2] == '/'))
        invariant
            chars@ == path@,
            end <= chars.len(),
            without_trailing_dots(path@) == without_trailing_dots(path@.take(end as int)),
        decreases end,
    {
        assert(path@.take(end as int).drop_last() =~= path@.take(end - 1));
        end = end - 1;
    }
    let ghost trimmed = path@.take(end as int);
    assert(without_trailing_dots(path@) == trimmed);
    let mut start: usize = end;
    while start >= 1 && chars[start - 1] != '/'
        invariant
            chars@ == path@,
            start <= end <= chars.len(),
            forall|j: int| start <= j < end ==> path@[j] != '/',
        decreases start,
    {
        start = start - 1;
    }
    proof {
        trimmed.index_of_last_ensures('/');
        if start >= 1 {
            assert(trimmed[start - 1] == '/');
            assert(trimmed.index_of_last('/') == Some(start - 1));
        } else {
            assert(!trimmed.contains('/'));
        }
        assert(last_segment(trimmed) =~= path@.subrange(start as int, end as int));
    }
    let length: usize = end - start;
    if length == 0 {
        None
    } else if length == 1 && chars[start] == '.' {
        assert(path@.subrange(start as int, end as int) =~= seq!['.']);
        None
    } else if length == 2 && chars[start] == '.' && chars[start + 1] == '.' {
        assert(path@.subrange(start as int, end as int) =~= seq!['.', '.']);
        None
    } else {
        proof {
            let name = path@.subrange(start as int, end as int);
            if name == seq!['.'] {
                assert(name.len() == 1 && name[0] == '.');
            }
            if name == seq!['.', '.'] {
                assert(name.len() == 2 && name[0] == '.' && name[1] == '.');
            }
        }
        Some(path.substring_char(start, end))
    }
}

/// The extension of a path: the extension within its file name.
pub fn extension(path: &str) -> (found: Option<&str>)
    ensures
        optional_slice(found) == extension_of(path@),
{
    match file_name(path) {
        Some(name) => {
            let chars = chars_of(name);
            let total: usize = chars.len();
            let mut after: usize = total;
            while after >= 1 && chars[after - 1] != '.'
                invariant
                    chars@ == name@,
                    after <= total == chars.len(),
                    forall|j: int| after <= j < total ==> name@[j] != '.',
                decreases after,
            {
                after = after - 1;
            }
            proof {
                name@.index_of_last_ensures('.');
                if after >= 1 {
                    assert(name@[after - 1] == '.');
                    assert(name@.index_of_last('.') == Some(after - 1));
                } else {
                    assert(!name@.contains('.'));
                }
            }
            if after <= 1 {
                None
            } else {
                Some(name.substring_char(after, total))
            }
        },
        None => None,
    }
}

/// The content type under which the asset `name` is served, by its extension.
pub fn content_type_for(name: &str) -> (content_type: String)
    ensures
        content_type@ == content_type_of(name@),
{
    match extension(name) {
        Some(found) => guess_mime(found),
        None => String::from_str("application/octet-stream"),
    }
}

/// The answer to a request for an asset.
#[derive(Debug)]
pub enum AssetReply {
    /// The asset's bytes and the content type to declare for them.
    Found { body: Vec<u8>, content_type: String },
    /// No copy of the asset exists.
    NotFound,
}

/// Mathematical model of an [`AssetReply`].
pub enum AssetReplyView {
    Found { body: Seq<u8>, content_type: Seq<char> },
    NotFound,
}

impl View for AssetReply {
    type V = AssetReplyView;

    open spec fn view(&self) -> AssetReplyView {
        match self {
            AssetReply::Found { body, content_type } => AssetReplyView::Found {
                body: body@,
                content_type: content_type@,
            },
            AssetReply::NotFound => AssetReplyView::NotFound,
        }
    }
}

/// Which copy answers: the operator's own copy where an asset root is set and
/// holds the asset, else the bundled copy, else none.
pub open spec fn selected(
    custom_root: bool,
    custom: Option<Seq<u8>>,
    bundled: Option<Seq<u8>>,
    content_type: Seq<char>,
) -> AssetReplyView {
    if custom_root && custom is Some {
        AssetReplyView::Found { body: custom->0, content_type }
    } else if bundled is Some {
        AssetReplyView::Found { body: bundled->0, content_type }
    } else {
        AssetReplyView::NotFound
    }
}

/// The bytes behind an optional file.
pub open spec fn optional_file(file: Option<Vec<u8>>) -> Option<Seq<u8>> {
    match file {
        Some(f) => Some(f@),
        None => None,
    }
}

/// Picks the copy that answers a request. `custom` is what the operator's
/// asset root holds under the asset's name, `bundled` what the bundled set
/// holds; `custom_root` says whether an asset root is set at all.
pub fn select_asset(
    custom_root: bool,
    custom: Option<Vec<u8>>,
    bundled: Option<Vec<u8>>,
    content_type: String,
) -> (reply: AssetReply)
    ensures
        reply@ == selected(
            custom_root,
            optional_file(custom),
            optional_file(bundled),
            content_type@,
        ),
{
    match (custom_root, custom, bundled) {
        (true, Some(body), _) => AssetReply::Found { body, content_type },
        (_, _, Some(body)) => AssetReply::Found { body, content_type },
        _ => AssetReply::NotFound,
    }
}

/// Serves the theme: the operator's own files where a theme path is set, the
/// bundled files otherwise and as a fallback.
#[derive(Debug)]
pub struct ThemeManager {
    theme_path: String,
}

impl View for ThemeManager {
    type V = Seq<char>;

    closed spec fn view(&self) -> Seq<char> {
        self.theme_path@
    }
}

impl Clone for ThemeManager {
    fn clone(&self) -> (res: Self)
        ensures
            res@ == self@,
    {
        ThemeManager { theme_path: self.theme_path.clone() }
    }
}

impl ThemeManager {
    /// A manager for the theme under `theme_path`; the empty path stands for
    /// "no theme of the operator's own".
    pub fn new(theme_path: &str) -> (manager: Self)
        ensures
            manager@ == theme_path@,
    {
        ThemeManager { theme_path: String::from_str(theme_path) }
    }

    /// The directory of the operator's theme.
    pub fn theme_path(&self) -> (path: &str)
        ensures
            path@ == self@,
    {
        self.theme_path.as_str()
    }

    /// Whether the operator has set a theme of their own.
    pub fn has_custom_theme(&self) -> (custom: bool)
        ensures
            custom == (self@.len() > 0),
    {
        !self.theme_path.as_str().is_empty()
    }

    /// Answers the request for `tail`. `custom` is what the theme path holds
    /// under [`asset_name`]`(tail)`, `bundled` what the bundled theme holds
    /// under it. The content type goes by the asset's name, not by the copy
    /// that is served.
    pub fn serve_theme_file(
        &self,
        tail: &str,
        custom: Option<Vec<u8>>,
        bundled: Option<Vec<u8>>,
    ) -> (reply: AssetReply)
        ensures
            reply@ == selected(
                self@.len() > 0,
                optional_file(custom),
                optional_file(bundled),
                content_type_of(asset_name_of(tail@)),
            ),
    {
        let name = asset_name(tail);
        let content_type = content_type_for(name);
        select_asset(self.has_custom_theme(), custom, bundled, content_type)
    }
}

} // verus!
