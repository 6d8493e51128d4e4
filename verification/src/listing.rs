//! Which voices the voices root holds, told from the entries of that
//! directory.
//!
//! A voice is there where a regular file is named after it: the id, then
//! `.wav`. The ids come out in ascending order.

use crate::error::{AssetError, AssetErrorView};
use crate::naming::voice_file;
use crate::text::{
    ascending, ends_with, lemma_ascending_unique, lemma_text_le_total, lemma_text_le_transitive,
    precedes_or_equals, text_le,
};
use vstd::prelude::*;
use vstd::multiset::{lemma_multiset_empty_len, Multiset};
use vstd::seq_lib::{to_multiset_build, to_multiset_insert, to_multiset_len};

verus! {

/// An entry of a directory, as far as the listing reads it.
#[derive(Clone, Debug, PartialEq, Eq)]
pub struct DirectoryEntry {
    /// The name of the entry, or `None` where the name is no text.
    pub name: Option<String>,
    /// Whether the entry is a regular file. An entry that cannot be examined
    /// counts as none.
    pub is_file: bool,
}

/// A `DirectoryEntry` with its name as a sequence of characters.
pub struct DirectoryEntryView {
    pub name: Option<Seq<char>>,
    pub is_file: bool,
}

impl View for DirectoryEntry {
    type V = DirectoryEntryView;

    open spec fn view(&self) -> DirectoryEntryView {
        DirectoryEntryView {
            name: match self.name {
                Some(name) => Some(name@),
                None => None,
            },
            is_file: self.is_file,
        }
    }
}

impl DeepView for DirectoryEntry {
    type V = DirectoryEntryView;

    open spec fn deep_view(&self) -> DirectoryEntryView {
        self@
    }
}

/// The id of the voice that a file of this name holds: the name without its
/// `.wav`, where it ends so and has more before it.
pub open spec fn voice_named(name: Seq<char>) -> Option<Seq<char>> {
    if ".wav"@.is_suffix_of(name) && name.len() > ".wav"@.len() {
        Some(name.take(name.len() - ".wav"@.len()))
    } else {
        None
    }
}

/// The id of the voice that `entry` holds, where it holds one: it is a
/// regular file, and its name is a text that names a voice.
pub open spec fn listed_voice(entry: DirectoryEntryView) -> Option<Seq<char>> {
    match entry.name {
        Some(name) => if entry.is_file {
            voice_named(name)
        } else {
            None
        },
        None => None,
    }
}

/// A voice is listed under the id that it is saved and read by: a regular
/// file holds the voice `voice_id` exactly where its name is the file name of
/// that voice and the id is not empty.
pub proof fn lemma_listed_voice_is_named(entry: DirectoryEntryView, voice_id: Seq<char>)
    ensures
        listed_voice(entry) == Some(voice_id) <==> entry.is_file && voice_id.len() > 0
            && entry.name == Some(voice_file(voice_id)),
{
    let tail = ".wav"@;
    if entry.is_file && voice_id.len() > 0 && entry.name == Some(voice_file(voice_id)) {
        let name = voice_file(voice_id);
        assert(name.subrange(name.len() - tail.len(), name.len() as int) =~= tail);
        assert(name.take(name.len() - tail.len()) =~= voice_id);
    }
    if listed_voice(entry) == Some(voice_id) {
        let name = entry.name->Some_0;
        assert(voice_named(name) == Some(voice_id));
        assert(name =~= voice_id + tail);
    }
}

/// `listed_voice` as a function.
pub open spec fn voice_of_entry() -> spec_fn(DirectoryEntryView) -> Option<Seq<char>> {
    |entry: DirectoryEntryView| listed_voice(entry)
}

/// The ids of the voices that `entries` hold, in the order of the entries.
pub open spec fn listed_voices(entries: Seq<DirectoryEntryView>) -> Seq<Seq<char>> {
    entries.filter_map(voice_of_entry())
}

/// What was found when the directory was listed, by its views: `Ok(None)`
/// where there is no such directory.
pub open spec fn listing_view(listing: Result<Option<Vec<DirectoryEntry>>, String>) -> Result<
    Option<Seq<DirectoryEntryView>>,
    Seq<char>,
> {
    match listing {
        Ok(None) => Ok(None),
        Ok(Some(entries)) => Ok(Some(entries.deep_view())),
        Err(detail) => Err(detail@),
    }
}

/// Whether `ids` is what listing comes to, where the directory held
/// `entries`: the ids of the voices among the entries, each as often as it
/// is there, in ascending order.
pub open spec fn lists(ids: Seq<Seq<char>>, entries: Seq<DirectoryEntryView>) -> bool {
    &&& ascending(ids)
    &&& ids.to_multiset() == listed_voices(entries).to_multiset()
}

/// The id of the voice that a file of this name holds.
pub fn voice_id_of_name(name: &str) -> (id: Option<String>)
    ensures
        id.deep_view() == voice_named(name@),
{
    if !ends_with(name, ".wav") {
        return None;
    }
    let whole: usize = name.unicode_len();
    let tail: usize = ".wav".unicode_len();
    if whole > tail {
        let id = name.substring_char(0, whole - tail);
        Some(String::from_str(id))
    } else {
        None
    }
}

/// The id of the voice that `entry` holds, where it holds one.
pub fn voice_id_of_entry(entry: &DirectoryEntry) -> (id: Option<String>)
    ensures
        id.deep_view() == listed_voice(entry@),
{
    if !entry.is_file {
        return None;
    }
    match &entry.name {
        Some(name) => voice_id_of_name(name.as_str()),
        None => None,
    }
}

/// The ids of the voices that `entries` hold, in the order of the entries.
pub fn collect_voice_ids(entries: &Vec<DirectoryEntry>) -> (ids: Vec<String>)
    ensures
        ids.deep_view() == listed_voices(entries.deep_view()),
{
    let mut ids: Vec<String> = Vec::new();
    let mut i: usize = 0;
    assert(entries.deep_view().take(0) =~= Seq::empty());
    while i < entries.len()
        invariant
            i <= entries.len(),
            ids.deep_view() == listed_voices(entries.deep_view().take(i as int)),
        decreases entries.len() - i,
    {
        let ghost before = ids.deep_view();
        proof {
            entries.deep_view().lemma_filter_map_take_succ(voice_of_entry(), i as int);
        }
        match voice_id_of_entry(&entries[i]) {
            Some(id) => {
                ids.push(id);
                assert(ids.deep_view() =~= before + seq![id@]);
            },
            None => {
                assert(before + Seq::<Seq<char>>::empty() =~= before);
            },
        }
        i += 1;
    }
    assert(entries.deep_view().take(i as int) =~= entries.deep_view());
    ids
}

/// No texts make an empty multiset.
proof fn lemma_nothing_holds_nothing(texts: Seq<Seq<char>>)
    requires
        texts.len() == 0,
    ensures
        texts.to_multiset() == Multiset::<Seq<char>>::empty(),
{
    to_multiset_len(texts);
    lemma_multiset_empty_len(texts.to_multiset());
    assert(texts.to_multiset() =~= Multiset::<Seq<char>>::empty());
}

/// Where `item` goes in `sorted` so that the order stays ascending: after
/// all that it comes after, before all that it equals or comes before.
fn insertion_point(sorted: &Vec<String>, item: &str) -> (at: usize)
    requires
        ascending(sorted.deep_view()),
    ensures
        at <= sorted.len(),
        forall|j: int| 0 <= j < at ==> text_le(#[trigger] sorted.deep_view()[j], item@),
        forall|j: int| at <= j < sorted.len() ==> text_le(item@, #[trigger] sorted.deep_view()[j]),
{
    let mut at: usize = 0;
    while at < sorted.len()
        invariant
            at <= sorted.len(),
            ascending(sorted.deep_view()),
            forall|j: int| 0 <= j < at ==> text_le(#[trigger] sorted.deep_view()[j], item@),
        decreases sorted.len() - at,
    {
        if precedes_or_equals(item, sorted[at].as_str()) {
            proof {
                let texts = sorted.deep_view();
                assert forall|j: int| at <= j < sorted.len() implies text_le(
                    item@,
                    #[trigger] texts[j],
                ) by {
                    if at < j {
                        lemma_text_le_transitive(item@, texts[at as int], texts[j]);
                    }
                }
            }
            return at;
        }
        proof {
            lemma_text_le_total(item@, sorted.deep_view()[at as int]);
        }
        at += 1;
    }
    at
}

/// The same texts in ascending order.
pub fn sort_texts(items: Vec<String>) -> (sorted: Vec<String>)
    ensures
        ascending(sorted.deep_view()),
        sorted.deep_view().to_multiset() == items.deep_view().to_multiset(),
{
    let ghost all = items.deep_view();
    let mut rest = items;
    let mut sorted: Vec<String> = Vec::new();
    proof {
        lemma_nothing_holds_nothing(sorted.deep_view());
        assert(sorted.deep_view().to_multiset().add(all.to_multiset()) =~= all.to_multiset());
    }
    while rest.len() > 0
        invariant
            ascending(sorted.deep_view()),
            sorted.deep_view().to_multiset().add(rest.deep_view().to_multiset())
                == all.to_multiset(),
        decreases rest.len(),
    {
        let ghost placed = sorted.deep_view();
        let ghost waiting = rest.deep_view();
        let item = rest.pop().unwrap();
        let at: usize = insertion_point(&sorted, item.as_str());
        proof {
            assert(waiting =~= rest.deep_view().push(item@));
            to_multiset_build(rest.deep_view(), item@);
            to_multiset_insert(placed, at as int, item@);
        }
        sorted.insert(at, item);
        proof {
            assert(sorted.deep_view() =~= placed.insert(at as int, item@));
            assert(sorted.deep_view().to_multiset().add(rest.deep_view().to_multiset())
                =~= placed.to_multiset().add(waiting.to_multiset()));
            let texts = sorted.deep_view();
            assert forall|i: int, j: int| 0 <= i < j < texts.len() implies text_le(
                #[trigger] texts[i],
                #[trigger] texts[j],
            ) by {
                if j < at {
                    assert(texts[i] == placed[i] && texts[j] == placed[j]);
                } else if j == at {
                    assert(texts[i] == placed[i]);
                } else if i < at {
                    assert(texts[i] == placed[i] && texts[j] == placed[j - 1]);
                } else if i == at {
                    assert(texts[j] == placed[j - 1]);
                } else {
                    assert(texts[i] == placed[i - 1] && texts[j] == placed[j - 1]);
                }
            }
        }
    }
    proof {
        lemma_nothing_holds_nothing(rest.deep_view());
        assert(sorted.deep_view().to_multiset().add(rest.deep_view().to_multiset())
            =~= sorted.deep_view().to_multiset());
    }
    sorted
}

/// Lists the voices that the voices root holds, where listing that
/// directory gave `listing`: `Ok(None)` where there is no such directory,
/// its entries where there is one, and what the file system said where it
/// refused.
///
/// A directory that is not there holds no voice and is no error. The ids
/// come out in ascending order, each as often as an entry holds it.
pub fn list_downloaded_voices(listing: Result<Option<Vec<DirectoryEntry>>, String>) -> (listed:
    Result<Vec<String>, AssetError>)
    ensures
        match listing_view(listing) {
            Ok(None) => listed matches Ok(ids) && ids.deep_view() == Seq::<Seq<char>>::empty(),
            Ok(Some(entries)) => listed matches Ok(ids) && lists(ids.deep_view(), entries) && (
            entries.len() == 0 ==> ids.deep_view() == Seq::<Seq<char>>::empty()),
            Err(detail) => listed matches Err(error) && error@ == AssetErrorView::IoFailed(detail),
        },
{
    match listing {
        Ok(None) => {
            let ids: Vec<String> = Vec::new();
            assert(ids.deep_view() =~= Seq::empty());
            Ok(ids)
        },
        Ok(Some(entries)) => {
            let ids = sort_texts(collect_voice_ids(&entries));
            proof {
                if entries.len() == 0 {
                    lemma_lists_one_way(ids.deep_view(), Seq::empty(), entries.deep_view());
                }
            }
            Ok(ids)
        },
        Err(detail) => Err(AssetError::IoFailed(detail)),
    }
}

/// What listing comes to is settled by the entries: two answers to the same
/// entries are the same ids in the same order.
pub proof fn lemma_lists_one_way(
    ids: Seq<Seq<char>>,
    other: Seq<Seq<char>>,
    entries: Seq<DirectoryEntryView>,
)
    requires
        lists(ids, entries),
        lists(other, entries),
    ensures
        ids == other,
{
    lemma_ascending_unique(ids, other);
}

} // verus!
