//! The operations of the store.
//!
//! None of them touches a disk or a network. Saving hands back the file that
//! is to be written; reading and listing take what was found on disk; the
//! download is told what happened and says what is to be done next. Whoever
//! calls them does the reading, the writing and the fetching.

use crate::codec::{
    decode_standard, encode_standard, encoded_len, encodes, standard_decoding, standard_encoding,
    DecodeFault,
};
use crate::error::{AssetError, AssetErrorView, Payload};
use crate::naming::{
    ascii_alphanumeric, clean_extension, lowercase_of, personality_image_file,
    personality_image_file_name, sanitize_extension, voice_file, voice_file_name,
};
use vstd::prelude::*;

verus! {

/// One of the two directories that hold the assets.
#[derive(Clone, Copy, Debug, PartialEq, Eq, Structural)]
pub enum StorageRoot {
    /// Where the voices are kept.
    Voices,
    /// Where the images of personalities are kept.
    Images,
}

/// A file that is to be written: the root is created where it is missing,
/// then the file is created, or emptied where it exists, and filled with the
/// bytes.
#[derive(Clone, Debug, PartialEq, Eq)]
pub struct FileWrite {
    /// The directory that takes the file.
    pub root: StorageRoot,
    /// The name of the file in that directory.
    pub file_name: String,
    /// What the file holds afterwards.
    pub bytes: Vec<u8>,
}

/// A `FileWrite` with its name and bytes as sequences.
pub struct FileWriteView {
    pub root: StorageRoot,
    pub file_name: Seq<char>,
    pub bytes: Seq<u8>,
}

impl View for FileWrite {
    type V = FileWriteView;

    open spec fn view(&self) -> FileWriteView {
        FileWriteView { root: self.root, file_name: self.file_name@, bytes: self.bytes@ }
    }
}

/// The bytes or the fault that a decoding gave, with the bytes as a sequence.
pub open spec fn decoded_view(decoded: Result<Vec<u8>, DecodeFault>) -> Result<
    Seq<u8>,
    DecodeFault,
> {
    match decoded {
        Ok(bytes) => Ok(bytes@),
        Err(fault) => Err(fault),
    }
}

/// The write or the error that a save gave, each by its view.
pub open spec fn staged_view(staged: Result<FileWrite, AssetError>) -> Result<
    FileWriteView,
    AssetErrorView,
> {
    match staged {
        Ok(write) => Ok(write@),
        Err(error) => Err(error@),
    }
}

/// What saving a voice comes to, once its payload is decoded: the decoded
/// bytes go into the voice's file, and a fault is reported and writes
/// nothing.
pub open spec fn staged_voice(voice_id: Seq<char>, decoded: Result<Seq<u8>, DecodeFault>) -> Result<
    FileWriteView,
    AssetErrorView,
> {
    match decoded {
        Ok(bytes) => Ok(
            FileWriteView { root: StorageRoot::Voices, file_name: voice_file(voice_id), bytes },
        ),
        Err(fault) => Err(AssetErrorView::DecodeFailed(Payload::Wav, fault)),
    }
}

/// What saving the image of a personality comes to, once its payload is
/// decoded and its extension is cleaned.
pub open spec fn staged_image(
    personality_id: Seq<char>,
    decoded: Result<Seq<u8>, DecodeFault>,
    ext: Seq<char>,
) -> Result<FileWriteView, AssetErrorView> {
    match decoded {
        Ok(bytes) => Ok(
            FileWriteView {
                root: StorageRoot::Images,
                file_name: personality_image_file(personality_id, ext),
                bytes,
            },
        ),
        Err(fault) => Err(AssetErrorView::DecodeFailed(Payload::Image, fault)),
    }
}

/// An image saved without an extension, or with one of which cleaning
/// leaves nothing, goes to a file that ends in `.png`.
pub proof fn lemma_missing_extension_is_png(
    personality_id: Seq<char>,
    bytes: Seq<u8>,
    ext: Option<Seq<char>>,
)
    requires
        ext matches Some(given) ==> lowercase_of(given).filter(ascii_alphanumeric()).len() == 0,
    ensures
        staged_image(
            personality_id,
            Ok(bytes),
            clean_extension(ext),
        ) matches Ok(write) && ".png"@.is_suffix_of(write.file_name),
{
    reveal_strlit(".png");
    reveal_strlit("png");
    reveal_strlit(".");
    let name = staged_image(personality_id, Ok(bytes), clean_extension(ext))->Ok_0.file_name;
    assert(clean_extension(ext) == "png"@);
    assert(name.subrange(name.len() - 4, name.len() as int) =~= ".png"@);
}

/// The write that saves a voice whose payload was decoded to `decoded`.
pub fn stage_voice(voice_id: &str, decoded: Result<Vec<u8>, DecodeFault>) -> (staged: Result<
    FileWrite,
    AssetError,
>)
    ensures
        staged_view(staged) == staged_voice(voice_id@, decoded_view(decoded)),
{
    match decoded {
        Ok(bytes) => Ok(
            FileWrite { root: StorageRoot::Voices, file_name: voice_file_name(voice_id), bytes },
        ),
        Err(fault) => Err(AssetError::DecodeFailed(Payload::Wav, fault)),
    }
}

/// The write that saves the image of a personality whose payload was
/// decoded to `decoded`, under the extension `ext`, which is taken as it is.
pub fn stage_personality_image(
    personality_id: &str,
    decoded: Result<Vec<u8>, DecodeFault>,
    ext: &str,
) -> (staged: Result<FileWrite, AssetError>)
    ensures
        staged_view(staged) == staged_image(personality_id@, decoded_view(decoded), ext@),
{
    match decoded {
        Ok(bytes) => Ok(
            FileWrite {
                root: StorageRoot::Images,
                file_name: personality_image_file_name(personality_id, ext),
                bytes,
            },
        ),
        Err(fault) => Err(AssetError::DecodeFailed(Payload::Image, fault)),
    }
}

/// Saves a voice that arrives as standard base64.
///
/// Where the payload decodes, the bytes are to be written to the voice's file
/// under the voices root. Where it does not, the fault is the error and
/// nothing is to be written.
pub fn save_voice_wav_base64(voice_id: String, base64_wav: String) -> (staged: Result<
    FileWrite,
    AssetError,
>)
    ensures
        staged_view(staged) == staged_voice(voice_id@, standard_decoding(base64_wav@)),
{
    stage_voice(voice_id.as_str(), decode_standard(base64_wav.as_str()))
}

/// Saves the image of a personality that arrives as standard base64.
///
/// Where the payload decodes, the bytes are to be written under the images
/// root, to a file named after the personality and the cleaned extension.
/// Where it does not, the fault is the error and nothing is to be written.
pub fn save_personality_image_base64(
    personality_id: String,
    base64_image: String,
    ext: Option<String>,
) -> (staged: Result<FileWrite, AssetError>)
    ensures
        staged_view(staged) == staged_image(
            personality_id@,
            standard_decoding(base64_image@),
            clean_extension(
                match ext {
                    Some(given) => Some(given@),
                    None => None,
                },
            ),
        ),
{
    let decoded = decode_standard(base64_image.as_str());
    let clean = match &ext {
        Some(given) => sanitize_extension(Some(given.as_str())),
        None => sanitize_extension(None),
    };
    stage_personality_image(personality_id.as_str(), decoded, clean.as_str())
}

/// What a write came to: the path of the file, or what the file system said
/// when it refused.
pub fn finish_write(written: Result<String, String>) -> (outcome: Result<String, AssetError>)
    ensures
        match written {
            Ok(path) => outcome matches Ok(same) && same@ == path@,
            Err(detail) => outcome matches Err(error) && error@ == AssetErrorView::IoFailed(
                detail@,
            ),
        },
{
    match written {
        Ok(path) => Ok(path),
        Err(detail) => Err(AssetError::IoFailed(detail)),
    }
}

/// What reading a voice comes to, where looking for its file gave `found`:
/// no file is no voice and no error, a file is its bytes in standard base64,
/// and a refusal of the file system is the error.
pub open spec fn voice_reading(found: Result<Option<Seq<u8>>, Seq<char>>) -> Result<
    Option<Seq<char>>,
    AssetErrorView,
> {
    match found {
        Ok(None) => Ok(None),
        Ok(Some(bytes)) => Ok(Some(standard_encoding(bytes))),
        Err(detail) => Err(AssetErrorView::IoFailed(detail)),
    }
}

/// What was found when a file was looked for, with bytes and text as
/// sequences.
pub open spec fn found_view(found: Result<Option<Vec<u8>>, String>) -> Result<
    Option<Seq<u8>>,
    Seq<char>,
> {
    match found {
        Ok(None) => Ok(None),
        Ok(Some(bytes)) => Ok(Some(bytes@)),
        Err(detail) => Err(detail@),
    }
}

/// What a reading gave, with its text as a sequence.
pub open spec fn reading_view(reading: Result<Option<String>, AssetError>) -> Result<
    Option<Seq<char>>,
    AssetErrorView,
> {
    match reading {
        Ok(None) => Ok(None),
        Ok(Some(text)) => Ok(Some(text@)),
        Err(error) => Err(error@),
    }
}

/// Reads a voice back as standard base64, where looking for the voice's file
/// gave `found`: `Ok(None)` where there is no such file, the bytes where
/// there is one, and what the file system said where it refused.
///
/// The text for the bytes has to fit in memory: its length may not pass
/// `usize::MAX`.
pub fn read_voice_base64(found: Result<Option<Vec<u8>>, String>) -> (reading: Result<
    Option<String>,
    AssetError,
>)
    requires
        found matches Ok(Some(bytes)) ==> encoded_len(bytes@.len()) <= usize::MAX,
    ensures
        reading_view(reading) == voice_reading(found_view(found)),
        found matches Ok(Some(bytes)) ==> reading matches Ok(Some(text)) && encodes(
            bytes@,
            text@,
        ),
{
    match found {
        Ok(None) => Ok(None),
        Ok(Some(bytes)) => Ok(Some(encode_standard(bytes.as_slice()))),
        Err(detail) => Err(AssetError::IoFailed(detail)),
    }
}

} // verus!
