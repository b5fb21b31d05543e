//! Where the background image comes from.
use crate::text::{
    base_name, base_of, chars_of, find_last, last_index, lemma_last_index, str_eq,
};
use vstd::prelude::*;

verus! {

/// Where an image is fetched from.
#[derive(Debug, Clone, Copy, PartialEq, Eq)]
pub enum ImageSource {
    /// From a server.
    Remote,
    /// From a file of this machine.
    Local,
}

/// Whether `text` begins with `prefix`.
pub open spec fn begins_with(text: Seq<char>, prefix: Seq<char>) -> bool {
    prefix.len() <= text.len() && text.take(prefix.len() as int) == prefix
}

/// Whether `text` begins with `prefix`.
pub fn starts_with(text: &str, prefix: &str) -> (r: bool)
    ensures
        r == begins_with(text@, prefix@),
{
    let whole = chars_of(text);
    let head = chars_of(prefix);
    if head.len() > whole.len() {
        return false;
    }
    let mut k: usize = 0;
    while k < head.len()
        invariant
            whole@ == text@,
            head@ == prefix@,
            k <= head.len() <= whole.len(),
            forall|j: int| 0 <= j < k ==> whole@[j] == head@[j],
        decreases head.len() - k,
    {
        if whole[k] != head[k] {
            assert(whole@.take(head@.len() as int)[k as int] != head@[k as int]);
            return false;
        }
        k = k + 1;
    }
    assert(whole@.take(head@.len() as int) =~= head@);
    true
}

/// Where the image at `path` is fetched from: from a server where the path
/// is a web address, else from a file.
pub fn image_source(path: &str) -> (r: ImageSource)
    ensures
        r == if begins_with(path@, "http://"@) || begins_with(path@, "https://"@) {
            ImageSource::Remote
        } else {
            ImageSource::Local
        },
{
    if starts_with(path, "http://") || starts_with(path, "https://") {
        ImageSource::Remote
    } else {
        ImageSource::Local
    }
}

/// What `str::to_lowercase` makes of a text.
pub uninterp spec fn lowercase(text: Seq<char>) -> Seq<char>;

/// `str::to_lowercase`. Believed: the result depends on the text alone.
#[verifier::external_body]
fn to_lowercase(text: &str) -> (r: String)
    ensures
        r@ == lowercase(text@),
{
    text.to_lowercase()
}

/// The extension of the file at `path`: what follows the last `.` of its
/// base name, where that name has one that is not its first character.
pub open spec fn extension(path: Seq<char>) -> Option<Seq<char>> {
    let base = base_name(path);
    let dot = last_index(base, '.');
    if dot <= 0 || base == seq!['.', '.'] {
        None
    } else {
        Some(base.skip(dot + 1))
    }
}

/// Whether an extension, in lower case, is that of an image the greeter can
/// show.
pub open spec fn is_image_extension(lowered: Seq<char>) -> bool {
    lowered == "jpg"@ || lowered == "jpeg"@ || lowered == "png"@ || lowered == "webp"@
}

/// Whether `lowered` is the extension of an image the greeter can show.
pub fn image_extension(lowered: &str) -> (r: bool)
    ensures
        r == is_image_extension(lowered@),
{
    str_eq(lowered, "jpg") || str_eq(lowered, "jpeg") || str_eq(lowered, "png") || str_eq(
        lowered,
        "webp",
    )
}

/// The extension of the file at `path`.
pub fn extension_of(path: &str) -> (r: Option<String>)
    ensures
        r.deep_view() == extension(path@),
{
    let base = base_of(path);
    let name = chars_of(base);
    proof {
        lemma_last_index(base@, '.');
    }
    if name.len() == 2 && name[0] == '.' && name[1] == '.' {
        assert(name@ =~= seq!['.', '.']);
        return None;
    }
    assert(base@ != seq!['.', '.']) by {
        if base@ == seq!['.', '.'] {
            assert(seq!['.', '.'].len() == 2);
            assert(seq!['.', '.'][0] == '.');
            assert(seq!['.', '.'][1] == '.');
        }
    }
    match find_last(&name, '.') {
        Some(dot) => {
            if dot > 0 {
                let rest = base.substring_char(dot + 1, name.len());
                assert(rest@ =~= base@.skip(dot + 1));
                Some(rest.to_owned())
            } else {
                None
            }
        },
        None => None,
    }
}

/// Whether the file at `path` has the name of an image the greeter can
/// show: its extension, whatever its case, is one of jpg, jpeg, png, webp.
pub fn has_image_name(path: &str) -> (r: bool)
    ensures
        r == match extension(path@) {
            Some(ext) => is_image_extension(lowercase(ext)),
            None => false,
        },
{
    match extension_of(path) {
        Some(ext) => {
            let lowered = to_lowercase(ext.as_str());
            image_extension(lowered.as_str())
        },
        None => false,
    }
}

} // verus!
