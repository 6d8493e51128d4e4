use std::collections::HashMap;

use asset_store::assets::{stage_personality_image, stage_voice};
use asset_store::{
    encoding_fits, finish_write, read_voice_base64, voice_file_name, AssetError, DecodeFault,
    FileWrite, Payload, StorageRoot,
};
use base64::Engine;

fn save_voice_wav_base64(voice_id: &str, base64_wav: &str) -> Result<FileWrite, AssetError> {
    asset_store::save_voice_wav_base64(voice_id.to_string(), base64_wav.to_string())
}

fn save_personality_image_base64(
    personality_id: &str,
    base64_image: &str,
    ext: Option<&str>,
) -> Result<FileWrite, AssetError> {
    asset_store::save_personality_image_base64(
        personality_id.to_string(),
        base64_image.to_string(),
        ext.map(str::to_string),
    )
}

/// A stand-in for the voices root: what each file holds.
fn carry_out(files: &mut HashMap<String, Vec<u8>>, write: FileWrite) {
    files.insert(write.file_name, write.bytes);
}

fn look_up(files: &HashMap<String, Vec<u8>>, voice_id: &str) -> Result<Option<Vec<u8>>, String> {
    Ok(files.get(&voice_file_name(voice_id)).cloned())
}

#[test]
fn save_voice_decodes_and_names_the_file() {
    let write = save_voice_wav_base64("morgan", "aGVsbG8=").unwrap();
    assert_eq!(write.root, StorageRoot::Voices);
    assert_eq!(write.file_name, "morgan.wav");
    assert_eq!(write.bytes, b"hello".to_vec());
}

#[test]
fn save_voice_of_empty_payload_writes_an_empty_file() {
    let write = save_voice_wav_base64("quiet", "").unwrap();
    assert_eq!(write.file_name, "quiet.wav");
    assert_eq!(write.bytes, Vec::<u8>::new());
}

#[test]
fn save_voice_passes_the_id_through_unchanged() {
    let write = save_voice_wav_base64("../up one", "AA==").unwrap();
    assert_eq!(write.file_name, "../up one.wav");
    assert_eq!(write.bytes, vec![0u8]);
}

#[test]
fn saved_voice_reads_back_as_the_same_text() {
    let payloads: Vec<Vec<u8>> = vec![
        vec![],
        vec![0],
        vec![255, 254],
        b"RIFF....WAVEfmt ".to_vec(),
        (0..=255u8).collect(),
    ];
    for payload in payloads {
        let text = base64::engine::general_purpose::STANDARD.encode(&payload);
        let mut files = HashMap::new();
        carry_out(&mut files, save_voice_wav_base64("v1", &text).unwrap());
        assert_eq!(files.get("v1.wav"), Some(&payload));
        assert_eq!(read_voice_base64(look_up(&files, "v1")), Ok(Some(text)));
    }
}

#[test]
fn read_voice_encodes_with_padding() {
    assert_eq!(read_voice_base64(Ok(Some(b"hello".to_vec()))), Ok(Some("aGVsbG8=".to_string())));
    assert_eq!(read_voice_base64(Ok(Some(b"hi".to_vec()))), Ok(Some("aGk=".to_string())));
    assert_eq!(read_voice_base64(Ok(Some(b"hey".to_vec()))), Ok(Some("aGV5".to_string())));
    assert_eq!(read_voice_base64(Ok(Some(vec![0xfb, 0xff]))), Ok(Some("+/8=".to_string())));
    assert_eq!(read_voice_base64(Ok(Some(vec![]))), Ok(Some(String::new())));
}

#[test]
fn read_voice_never_written_is_none_not_an_error() {
    let files: HashMap<String, Vec<u8>> = HashMap::new();
    assert_eq!(read_voice_base64(look_up(&files, "nobody")), Ok(None));
    assert_eq!(read_voice_base64(Ok(None)), Ok(None));
}

#[test]
fn read_voice_reports_what_the_file_system_said() {
    let reading = read_voice_base64(Err("Permission denied (os error 13)".to_string()));
    assert_eq!(reading, Err(AssetError::IoFailed("Permission denied (os error 13)".to_string())));
    assert_eq!(reading.unwrap_err().message(), "Permission denied (os error 13)");
}

#[test]
fn second_save_replaces_the_first() {
    let mut files = HashMap::new();
    carry_out(&mut files, save_voice_wav_base64("v", "Zmlyc3QgcGF5bG9hZA==").unwrap());
    assert_eq!(files.get("v.wav"), Some(&b"first payload".to_vec()));
    carry_out(&mut files, save_voice_wav_base64("v", "Mm5k").unwrap());
    assert_eq!(files.len(), 1);
    assert_eq!(files.get("v.wav"), Some(&b"2nd".to_vec()));
    assert_eq!(read_voice_base64(look_up(&files, "v")), Ok(Some("Mm5k".to_string())));
}

#[test]
fn image_without_extension_is_png() {
    let write = save_personality_image_base64("p7", "iVBORw==", None).unwrap();
    assert_eq!(write.root, StorageRoot::Images);
    assert_eq!(write.file_name, "personality_p7.png");
    assert_eq!(write.bytes, vec![0x89, b'P', b'N', b'G']);
}

#[test]
fn image_extension_is_lowercased_and_stripped() {
    let write = save_personality_image_base64("p7", "iVBORw==", Some("JPG!")).unwrap();
    assert_eq!(write.file_name, "personality_p7.jpg");
    assert!(write.file_name.ends_with(".jpg"));
    let write = save_personality_image_base64("p7", "iVBORw==", Some(".WebP ")).unwrap();
    assert_eq!(write.file_name, "personality_p7.webp");
    let write = save_personality_image_base64("p7", "iVBORw==", Some("../../Jp2")).unwrap();
    assert_eq!(write.file_name, "personality_p7.jp2");
}

#[test]
fn image_extension_that_cleans_to_nothing_is_png() {
    let write = save_personality_image_base64("p7", "iVBORw==", Some("!!!")).unwrap();
    assert!(write.file_name.ends_with(".png"));
    assert_eq!(write.file_name, "personality_p7.png");
    let write = save_personality_image_base64("p7", "iVBORw==", Some("")).unwrap();
    assert_eq!(write.file_name, "personality_p7.png");
}

#[test]
fn invalid_base64_is_an_error_and_writes_nothing() {
    let mut files: HashMap<String, Vec<u8>> = HashMap::new();
    carry_out(&mut files, save_voice_wav_base64("v", "a2VlcA==").unwrap());
    let before = files.clone();

    let voice = save_voice_wav_base64("v", "not base64!");
    assert!(voice.is_err());
    let image = save_personality_image_base64("v", "not base64!", Some("png"));
    assert!(image.is_err());
    // No write came back, so there is nothing to carry out.
    assert_eq!(files, before);
    assert_eq!(read_voice_base64(look_up(&files, "v")), Ok(Some("a2VlcA==".to_string())));
}

#[test]
fn each_decode_fault_is_reported_with_its_place() {
    assert_eq!(
        save_voice_wav_base64("v", "!!!!"),
        Err(AssetError::DecodeFailed(Payload::Wav, DecodeFault::InvalidByte(0, 33)))
    );
    assert_eq!(
        save_voice_wav_base64("v", "aGVs\n"),
        Err(AssetError::DecodeFailed(Payload::Wav, DecodeFault::InvalidByte(4, 10)))
    );
    assert_eq!(
        save_voice_wav_base64("v", "a"),
        Err(AssetError::DecodeFailed(Payload::Wav, DecodeFault::InvalidLength(1)))
    );
    assert_eq!(
        save_voice_wav_base64("v", "aGVsbG9="),
        Err(AssetError::DecodeFailed(Payload::Wav, DecodeFault::InvalidLastSymbol(6, 57)))
    );
    assert_eq!(
        save_voice_wav_base64("v", "aGVsbG8"),
        Err(AssetError::DecodeFailed(Payload::Wav, DecodeFault::InvalidPadding))
    );
    assert_eq!(
        save_personality_image_base64("p", "aGVsbG8", None),
        Err(AssetError::DecodeFailed(Payload::Image, DecodeFault::InvalidPadding))
    );
}

#[test]
fn url_safe_alphabet_is_not_standard() {
    assert_eq!(
        save_voice_wav_base64("v", "-_8="),
        Err(AssetError::DecodeFailed(Payload::Wav, DecodeFault::InvalidByte(0, 45)))
    );
}

#[test]
fn decode_faults_agree_with_the_base64_crate() {
    let texts = ["!!!!", "a", "aGVsbG9=", "aGVsbG8", "aG=sbG8=", "====", "aGVsbG8=\n", "é"];
    for text in texts {
        let theirs = base64::engine::general_purpose::STANDARD.decode(text).unwrap_err();
        let ours = save_voice_wav_base64("v", text).unwrap_err();
        assert_eq!(ours.message(), format!("Failed to decode base64 wav: {}", theirs));
        let ours = save_personality_image_base64("p", text, None).unwrap_err();
        assert_eq!(ours.message(), format!("Failed to decode base64 image: {}", theirs));
    }
}

#[test]
fn decode_failure_messages_are_worded_in_full() {
    assert_eq!(
        save_voice_wav_base64("v", "!!!!").unwrap_err().message(),
        "Failed to decode base64 wav: Invalid symbol 33, offset 0."
    );
    assert_eq!(
        save_voice_wav_base64("v", "a").unwrap_err().message(),
        "Failed to decode base64 wav: Invalid input length: 1"
    );
    assert_eq!(
        save_personality_image_base64("p", "aGVsbG9=", None).unwrap_err().message(),
        "Failed to decode base64 image: Invalid last symbol 57, offset 6."
    );
    assert_eq!(
        save_personality_image_base64("p", "aGVsbG8", None).unwrap_err().message(),
        "Failed to decode base64 image: Invalid padding"
    );
}

#[test]
fn staging_takes_the_decoded_bytes_as_they_are() {
    let write = stage_voice("v", Ok(vec![1, 2, 3])).unwrap();
    assert_eq!(
        write,
        FileWrite {
            root: StorageRoot::Voices,
            file_name: "v.wav".to_string(),
            bytes: vec![1, 2, 3]
        }
    );
    assert_eq!(
        stage_voice("v", Err(DecodeFault::InvalidPadding)),
        Err(AssetError::DecodeFailed(Payload::Wav, DecodeFault::InvalidPadding))
    );
    let write = stage_personality_image("p", Ok(vec![9]), "gif").unwrap();
    assert_eq!(
        write,
        FileWrite {
            root: StorageRoot::Images,
            file_name: "personality_p.gif".to_string(),
            bytes: vec![9]
        }
    );
    assert_eq!(
        stage_personality_image("p", Err(DecodeFault::InvalidLength(5)), "gif"),
        Err(AssetError::DecodeFailed(Payload::Image, DecodeFault::InvalidLength(5)))
    );
}

#[test]
fn finish_write_gives_the_path_or_the_refusal() {
    assert_eq!(
        finish_write(Ok("/data/voices/v.wav".to_string())),
        Ok("/data/voices/v.wav".to_string())
    );
    assert_eq!(
        finish_write(Err("No space left on device (os error 28)".to_string())),
        Err(AssetError::IoFailed("No space left on device (os error 28)".to_string()))
    );
}

#[test]
fn encoding_fits_up_to_three_quarters_of_the_address_space() {
    assert!(encoding_fits(0));
    assert!(encoding_fits(1));
    assert!(encoding_fits(1 << 20));
    let most = usize::MAX / 4 * 3;
    assert!(encoding_fits(most));
    assert!(!encoding_fits(most + 1));
    assert!(!encoding_fits(usize::MAX));
}
