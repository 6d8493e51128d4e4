//! What the operations come to, one after another, on a store that keeps what
//! it is given.
//!
//! The store is the two roots, each a map from the names of its files to what
//! they hold. Carrying out a write puts the bytes under the name in its root,
//! in place of what was there. Nothing else changes a store. On this the laws
//! of saving and reading are stated and proved.

use crate::assets::{staged_image, staged_voice, voice_reading, FileWriteView, StorageRoot};
use crate::codec::{encodes, standard_decoding};
use crate::error::AssetErrorView;
use crate::listing::{
    lemma_listed_voice_is_named, listed_voice, listed_voices, lists, voice_of_entry,
    DirectoryEntryView,
};
use crate::naming::{clean_extension, lemma_voice_file_tells_voices_apart, voice_file};
use vstd::prelude::*;
use vstd::seq_lib::to_multiset_contains;

verus! {

/// The files of the two roots: for each name, what the file holds.
pub struct Store {
    pub voices: Map<Seq<char>, Seq<u8>>,
    pub images: Map<Seq<char>, Seq<u8>>,
}

/// The store after `write` was carried out.
pub open spec fn after_write(store: Store, write: FileWriteView) -> Store {
    match write.root {
        StorageRoot::Voices => Store {
            voices: store.voices.insert(write.file_name, write.bytes),
            images: store.images,
        },
        StorageRoot::Images => Store {
            voices: store.voices,
            images: store.images.insert(write.file_name, write.bytes),
        },
    }
}

/// The store after a save: with the write carried out where there is one,
/// and as it was where the save failed.
pub open spec fn after_save(store: Store, staged: Result<FileWriteView, AssetErrorView>) -> Store {
    match staged {
        Ok(write) => after_write(store, write),
        Err(_) => store,
    }
}

/// What looking for the file of the voice `voice_id` finds in `store`.
pub open spec fn voice_found(store: Store, voice_id: Seq<char>) -> Result<
    Option<Seq<u8>>,
    Seq<char>,
> {
    if store.voices.contains_key(voice_file(voice_id)) {
        Ok(Some(store.voices[voice_file(voice_id)]))
    } else {
        Ok(None)
    }
}

/// A voice that was saved reads back as the text that it was saved from:
/// where `text` is the standard base64 of `payload`, saving `text` under
/// `voice_id` succeeds, and reading `voice_id` from the store with that write
/// carried out gives `text`.
pub proof fn lemma_saved_voice_reads_back(
    store: Store,
    voice_id: Seq<char>,
    payload: Seq<u8>,
    text: Seq<char>,
)
    requires
        encodes(payload, text),
    ensures
        staged_voice(voice_id, standard_decoding(text)) is Ok,
        voice_reading(
            voice_found(
                after_save(store, staged_voice(voice_id, standard_decoding(text))),
                voice_id,
            ),
        ) == Ok::<Option<Seq<char>>, AssetErrorView>(Some(text)),
{
}

/// A voice that was never saved reads as none, which is no error: where
/// `store` holds no file of the voice `voice_id`, reading it gives `None`.
pub proof fn lemma_unsaved_voice_reads_none(store: Store, voice_id: Seq<char>)
    requires
        !store.voices.contains_key(voice_file(voice_id)),
    ensures
        voice_reading(voice_found(store, voice_id)) == Ok::<Option<Seq<char>>, AssetErrorView>(
            None,
        ),
{
}

/// A payload that is no standard base64 saves nothing: the save of a voice
/// and the save of an image both fail, and the store stays as it was.
pub proof fn lemma_invalid_base64_saves_nothing(
    store: Store,
    id: Seq<char>,
    text: Seq<char>,
    ext: Option<Seq<char>>,
)
    requires
        standard_decoding(text) is Err,
    ensures
        staged_voice(id, standard_decoding(text)) is Err,
        staged_image(id, standard_decoding(text), clean_extension(ext)) is Err,
        after_save(store, staged_voice(id, standard_decoding(text))) == store,
        after_save(store, staged_image(id, standard_decoding(text), clean_extension(ext)))
            == store,
{
}

/// Of two saves under one voice id the second is what is read: the first
/// payload is gone, not added to.
pub proof fn lemma_second_save_replaces_first(
    store: Store,
    voice_id: Seq<char>,
    first_payload: Seq<u8>,
    first_text: Seq<char>,
    second_payload: Seq<u8>,
    second_text: Seq<char>,
)
    requires
        encodes(first_payload, first_text),
        encodes(second_payload, second_text),
    ensures
        ({
            let once = after_save(store, staged_voice(voice_id, standard_decoding(first_text)));
            let twice = after_save(once, staged_voice(voice_id, standard_decoding(second_text)));
            &&& voice_reading(voice_found(twice, voice_id)) == Ok::<
                Option<Seq<char>>,
                AssetErrorView,
            >(Some(second_text))
            &&& twice.voices[voice_file(voice_id)] == second_payload
        }),
{
}

/// A save touches one file: saving the voice `saved_id` leaves every other
/// voice as it was found before, and saving an image leaves all voices so.
pub proof fn lemma_save_leaves_other_voices(
    store: Store,
    saved_id: Seq<char>,
    bytes: Seq<u8>,
    ext: Seq<char>,
    other_id: Seq<char>,
)
    ensures
        saved_id != other_id ==> voice_found(
            after_save(store, staged_voice(saved_id, Ok(bytes))),
            other_id,
        ) == voice_found(store, other_id),
        voice_found(after_save(store, staged_image(saved_id, Ok(bytes), ext)), other_id)
            == voice_found(store, other_id),
{
    if saved_id != other_id && voice_file(saved_id) == voice_file(other_id) {
        lemma_voice_file_tells_voices_apart(saved_id, other_id);
    }
}

/// Whether `entries` are what listing the voices root of `store` gives:
/// each regular file among them is a file of the store, and each file of
/// the store is a regular file among them.
pub open spec fn shows(entries: Seq<DirectoryEntryView>, store: Store) -> bool {
    &&& forall|i: int|
        0 <= i < entries.len() && (#[trigger] entries[i]).is_file && entries[i].name is Some
            ==> store.voices.contains_key(entries[i].name->Some_0)
    &&& forall|name: Seq<char>| #[trigger]
        store.voices.contains_key(name) ==> entries.contains(
            DirectoryEntryView { name: Some(name), is_file: true },
        )
}

/// An entry that holds a voice has that voice among the listed ones.
proof fn lemma_entry_is_listed(entries: Seq<DirectoryEntryView>, i: int)
    requires
        0 <= i < entries.len(),
        listed_voice(entries[i]) is Some,
    ensures
        listed_voices(entries).contains(listed_voice(entries[i])->Some_0),
    decreases entries.len(),
{
    let id = listed_voice(entries[i])->Some_0;
    let rest = entries.drop_last();
    let listed = listed_voices(entries);
    if i == entries.len() - 1 {
        assert(listed == listed_voices(rest) + seq![id]);
        assert(listed[listed.len() - 1] == id);
    } else {
        lemma_entry_is_listed(rest, i);
        let before = listed_voices(rest);
        let at = choose|at: int| 0 <= at < before.len() && before[at] == id;
        assert(listed[at] == id);
    }
}

/// The voices that are listed are the voices that are kept: where `ids` is
/// what listing comes to on the entries of the voices root, an id is among
/// them exactly where it is not empty and the store holds the file of the
/// voice, so that reading it finds the voice.
pub proof fn lemma_listed_voices_are_kept(
    store: Store,
    entries: Seq<DirectoryEntryView>,
    ids: Seq<Seq<char>>,
    voice_id: Seq<char>,
)
    requires
        shows(entries, store),
        lists(ids, entries),
    ensures
        ids.contains(voice_id) <==> voice_id.len() > 0 && voice_found(store, voice_id)
            == Ok::<Option<Seq<u8>>, Seq<char>>(Some(store.voices[voice_file(voice_id)])),
{
    let listed = listed_voices(entries);
    to_multiset_contains(ids, voice_id);
    to_multiset_contains(listed, voice_id);
    if listed.contains(voice_id) {
        entries.lemma_filter_map_contains(voice_of_entry(), voice_id);
        let entry = choose|entry: DirectoryEntryView| #[trigger]
            entries.contains(entry) && voice_of_entry()(entry) == Some(voice_id);
        lemma_listed_voice_is_named(entry, voice_id);
        let i = choose|i: int| 0 <= i < entries.len() && entries[i] == entry;
        assert(store.voices.contains_key(entries[i].name->Some_0));
    }
    if voice_id.len() > 0 && store.voices.contains_key(voice_file(voice_id)) {
        let entry = DirectoryEntryView { name: Some(voice_file(voice_id)), is_file: true };
        assert(entries.contains(entry));
        let i = choose|i: int| 0 <= i < entries.len() && entries[i] == entry;
        lemma_listed_voice_is_named(entry, voice_id);
        lemma_entry_is_listed(entries, i);
    }
}

} // verus!
