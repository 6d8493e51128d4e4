//! Where an asset is kept and where a voice is fetched from: the name of its
//! file under its storage root, and the address of a voice on the server.
//!
//! An id goes into a name as it is. Nothing is taken out of it or escaped.

use crate::text::{char_is_ascii_alphanumeric, chars_of, join, is_ascii_alphanumeric};
use vstd::prelude::*;

verus! {

/// The name of the file that holds the voice `voice_id`: the id, then `.wav`.
pub open spec fn voice_file(voice_id: Seq<char>) -> Seq<char> {
    voice_id + ".wav"@
}

/// The name of the file that holds the image of `personality_id` with the
/// extension `ext`.
pub open spec fn personality_image_file(personality_id: Seq<char>, ext: Seq<char>) -> Seq<char> {
    "personality_"@ + personality_id + "."@ + ext
}

/// The address from which the voice `voice_id` is fetched.
pub open spec fn voice_address(voice_id: Seq<char>) -> Seq<char> {
    "https://pub-6b92949063b142d59fc3478c56ec196c.r2.dev/"@ + voice_id + ".wav"@
}

/// The test that an extension's characters have to pass.
pub open spec fn ascii_alphanumeric() -> spec_fn(char) -> bool {
    |c: char| is_ascii_alphanumeric(c)
}

/// What `str::to_lowercase` makes of `text`.
pub uninterp spec fn lowercase_of(text: Seq<char>) -> Seq<char>;

/// The extension that is left of a lowercased one: its ASCII letters and
/// digits, or `png` where it is absent or has none.
pub open spec fn extension_kept(lowered: Option<Seq<char>>) -> Seq<char> {
    match lowered {
        None => "png"@,
        Some(given) => {
            let kept = given.filter(ascii_alphanumeric());
            if kept.len() == 0 {
                "png"@
            } else {
                kept
            }
        },
    }
}

/// The extension under which an image is kept, where `ext` was asked for:
/// `ext` in lower case, without what is no ASCII letter or digit, and `png`
/// where nothing is asked for or nothing is left.
pub open spec fn clean_extension(ext: Option<Seq<char>>) -> Seq<char> {
    match ext {
        None => extension_kept(None),
        Some(given) => extension_kept(Some(lowercase_of(given))),
    }
}

/// Two voices are kept in one file only where they are one voice.
pub proof fn lemma_voice_file_tells_voices_apart(a: Seq<char>, b: Seq<char>)
    requires
        voice_file(a) == voice_file(b),
    ensures
        a == b,
{
    let tail = ".wav"@;
    assert(a =~= voice_file(a).take(voice_file(a).len() - tail.len()));
    assert(b =~= voice_file(b).take(voice_file(b).len() - tail.len()));
}

/// The extension under which an image is kept is never empty and holds
/// ASCII letters and digits only, whatever was asked for.
pub proof fn lemma_clean_extension_is_plain(ext: Option<Seq<char>>)
    ensures
        clean_extension(ext).len() > 0,
        forall|i: int|
            0 <= i < clean_extension(ext).len() ==> is_ascii_alphanumeric(
                #[trigger] clean_extension(ext)[i],
            ),
{
    reveal_strlit("png");
    if let Some(given) = ext {
        let kept = lowercase_of(given).filter(ascii_alphanumeric());
        assert forall|i: int| 0 <= i < kept.len() implies is_ascii_alphanumeric(
            #[trigger] kept[i],
        ) by {
            lowercase_of(given).lemma_filter_pred(ascii_alphanumeric(), i);
        }
    }
}

/// Calls `str::to_lowercase`.
///
/// Believed, not proved: the result is a function of the text alone, here
/// named `lowercase_of`.
#[verifier::external_body]
pub(crate) fn lowercase(text: &str) -> (lowered: String)
    ensures
        lowered@ == lowercase_of(text@),
{
    text.to_lowercase()
}

/// The name of the file that holds the voice `voice_id`.
pub fn voice_file_name(voice_id: &str) -> (name: String)
    ensures
        name@ == voice_file(voice_id@),
{
    join(voice_id, ".wav")
}

/// The name of the file that holds the image of `personality_id` with the
/// extension `ext`, which is taken as it is.
pub fn personality_image_file_name(personality_id: &str, ext: &str) -> (name: String)
    ensures
        name@ == personality_image_file(personality_id@, ext@),
{
    let mut name = join("personality_", personality_id);
    name.append(".");
    name.append(ext);
    name
}

/// The address from which the voice `voice_id` is fetched.
pub fn voice_url(voice_id: &str) -> (url: String)
    ensures
        url@ == voice_address(voice_id@),
{
    let mut url = join("https://pub-6b92949063b142d59fc3478c56ec196c.r2.dev/", voice_id);
    url.append(".wav");
    url
}

/// The ASCII letters and digits of `text`, in their order.
pub fn keep_ascii_alphanumeric(text: &str) -> (kept: String)
    ensures
        kept@ == text@.filter(ascii_alphanumeric()),
{
    let chars = chars_of(text);
    let mut kept = String::new();
    let mut i: usize = 0;
    while i < chars.len()
        invariant
            i <= chars.len(),
            chars@ == text@,
            kept@ == text@.take(i as int).filter(ascii_alphanumeric()),
        decreases chars.len() - i,
    {
        proof {
            assert(text@.take(i + 1) =~= text@.take(i as int).push(text@[i as int]));
            text@.take(i as int).lemma_filter_push(text@[i as int], ascii_alphanumeric());
        }
        if char_is_ascii_alphanumeric(chars[i]) {
            let one = text.substring_char(i, i + 1);
            assert(one@ =~= seq![text@[i as int]]);
            kept.append(one);
        }
        i += 1;
    }
    assert(text@.take(i as int) =~= text@);
    kept
}

/// The extension that is left of a lowercased one.
pub fn extension_from_lowercase(lowered: Option<&str>) -> (ext: String)
    ensures
        ext@ == extension_kept(
            match lowered {
                Some(given) => Some(given@),
                None => None,
            },
        ),
{
    match lowered {
        None => String::from_str("png"),
        Some(given) => {
            let kept = keep_ascii_alphanumeric(given);
            if kept.as_str().unicode_len() == 0 {
                String::from_str("png")
            } else {
                kept
            }
        },
    }
}

/// The extension under which an image is kept, where `ext` was asked for.
pub fn sanitize_extension(ext: Option<&str>) -> (clean: String)
    ensures
        clean@ == clean_extension(
            match ext {
                Some(given) => Some(given@),
                None => None,
            },
        ),
{
    match ext {
        None => extension_from_lowercase(None),
        Some(given) => {
            let lowered = lowercase(given);
            extension_from_lowercase(Some(lowered.as_str()))
        },
    }
}

} // verus!
