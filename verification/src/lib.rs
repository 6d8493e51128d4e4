//! A local store of voice clips and personality images: how its files are
//! named, how payloads are decoded on the way in and encoded on the way out,
//! which voices a directory holds, and the steps by which a voice is fetched
//! from the server.
//!
//! The library decides and computes. It reads no file and opens no
//! connection: its callers do, and hand it what they found.

pub mod assets;
pub mod codec;
pub mod download;
pub mod error;
pub mod listing;
pub mod naming;
pub mod status;
pub mod store;
pub mod text;

pub use assets::{
    finish_write, read_voice_base64, save_personality_image_base64, save_voice_wav_base64,
    FileWrite, StorageRoot,
};
pub use codec::{encoding_fits, DecodeFault};
pub use download::{download_voice, DownloadAction, DownloadEvent, DownloadState};
pub use error::{AssetError, Payload};
pub use listing::{list_downloaded_voices, DirectoryEntry};
pub use naming::{personality_image_file_name, sanitize_extension, voice_file_name, voice_url};
pub use status::HttpStatus;
